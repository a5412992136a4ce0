use c2rust::command::{decimal_string, env_requests, plan_command, tool_args, tool_name, Commands, ResourceKind};
use c2rust::install::EntryKind;
use c2rust::launch::{collect_env, resolve_request, resource_path, run_tool, run_tool_with_env, tool_exit_status, Launch, ProcessOutcome};
use c2rust::platform::{Platform, TargetOs};

fn unix() -> Platform {
    Platform { os: TargetOs::Other, exe_suffix: String::new() }
}

fn strings(items: &[&str]) -> Vec<String> {
    items.iter().map(|s| s.to_string()).collect()
}

#[test]
fn init_arguments() {
    assert_eq!(tool_args(&Commands::Init), strings(&["init"]));
    assert_eq!(tool_name(&Commands::Init), "init");
}

#[test]
fn build_arguments() {
    let cmd = Commands::Build { feature: None, no_interactive: false, build_cmd: strings(&["make"]) };
    assert_eq!(tool_args(&cmd), strings(&["build", "--", "make"]));
    let cmd = Commands::Build {
        feature: Some("experimental".to_string()),
        no_interactive: true,
        build_cmd: strings(&["cmake", "--build", "."]),
    };
    assert_eq!(
        tool_args(&cmd),
        strings(&["build", "--feature", "experimental", "--no-interactive", "--", "cmake", "--build", "."])
    );
}

#[test]
fn test_and_clean_arguments() {
    let cmd = Commands::Test { feature: Some("f".to_string()), test_cmd: strings(&["ctest"]) };
    assert_eq!(tool_args(&cmd), strings(&["test", "--feature", "f", "--", "ctest"]));
    let cmd = Commands::Clean { feature: None, clean_cmd: strings(&["rm", "-rf", "build/"]) };
    assert_eq!(tool_args(&cmd), strings(&["clean", "--", "rm", "-rf", "build/"]));
}

#[test]
fn translate_arguments() {
    let cmd = Commands::Translate { feature: None, allow_all: false, max_fix_attempts: None, show_full_output: false };
    assert_eq!(tool_args(&cmd), strings(&["translate"]));
    let cmd = Commands::Translate {
        feature: Some("advanced".to_string()),
        allow_all: true,
        max_fix_attempts: Some(20),
        show_full_output: true,
    };
    assert_eq!(
        tool_args(&cmd),
        strings(&["translate", "--feature", "advanced", "--allow-all", "--max-fix-attempts", "20", "--show-full-output"])
    );
}

#[test]
fn merge_arguments() {
    let cmd = Commands::Merge { feature: Some("advanced".to_string()), extra_args: strings(&["--dry", "x"]) };
    assert_eq!(tool_args(&cmd), strings(&["merge", "--feature", "advanced", "--dry", "x"]));
    let cmd = Commands::Merge { feature: None, extra_args: vec![] };
    assert_eq!(tool_args(&cmd), strings(&["merge"]));
}

#[test]
fn decimal_notation() {
    assert_eq!(decimal_string(0), "0");
    assert_eq!(decimal_string(7), "7");
    assert_eq!(decimal_string(10), "10");
    assert_eq!(decimal_string(12345), "12345");
    assert_eq!(decimal_string(usize::MAX), usize::MAX.to_string());
}

#[test]
fn first_argument_is_tool_name() {
    let cmds = vec![
        Commands::Init,
        Commands::Build { feature: None, no_interactive: true, build_cmd: strings(&["make"]) },
        Commands::Test { feature: None, test_cmd: strings(&["t"]) },
        Commands::Clean { feature: None, clean_cmd: strings(&["c"]) },
        Commands::Translate { feature: None, allow_all: true, max_fix_attempts: Some(3), show_full_output: false },
        Commands::Merge { feature: None, extra_args: vec![] },
    ];
    for cmd in &cmds {
        assert_eq!(tool_args(cmd)[0], tool_name(cmd));
    }
}

#[test]
fn user_command_forwarded_verbatim() {
    let user = strings(&["--", "-x", "--feature", "make"]);
    let cmd = Commands::Build { feature: Some("f".to_string()), no_interactive: true, build_cmd: user.clone() };
    let args = tool_args(&cmd);
    assert_eq!(args[args.len() - user.len()..].to_vec(), user);
    assert_eq!(args[args.len() - user.len() - 1], "--");
}

#[test]
fn env_requests_per_command() {
    let os = TargetOs::Other;
    let build = Commands::Build { feature: None, no_interactive: false, build_cmd: strings(&["make"]) };
    let reqs = env_requests(os, &build);
    assert_eq!(reqs.len(), 1);
    assert_eq!(reqs[0].var, "C2RUST_HOOK_LIB");
    assert_eq!(reqs[0].kind, ResourceKind::Library);
    assert_eq!(reqs[0].name, "libhook.so");

    let translate = Commands::Translate { feature: None, allow_all: false, max_fix_attempts: None, show_full_output: false };
    let reqs = env_requests(TargetOs::MacOs, &translate);
    assert_eq!(reqs.len(), 2);
    assert_eq!(reqs[0].var, "C2RUST_TRANSLATE_DIR");
    assert_eq!(reqs[0].kind, ResourceKind::PythonDir);
    assert_eq!(reqs[0].name, "translate_and_fix");
    assert_eq!(reqs[1].var, "C2RUST_HYBRID_BUILD_LIB");
    assert_eq!(reqs[1].kind, ResourceKind::Library);
    assert_eq!(reqs[1].name, "libc2rust-hybrid-build.dylib");

    assert!(env_requests(os, &Commands::Init).is_empty());
    let merge = Commands::Merge { feature: None, extra_args: vec![] };
    assert!(env_requests(os, &merge).is_empty());
}

#[test]
fn plan_bundles_name_args_and_env() {
    let cmd = Commands::Test { feature: None, test_cmd: strings(&["make", "test"]) };
    let inv = plan_command(TargetOs::Other, &cmd);
    assert_eq!(inv.tool, "test");
    assert_eq!(inv.args, strings(&["test", "--", "make", "test"]));
    assert!(inv.env_requests.is_empty());
}

#[test]
fn resources_are_resolved_by_kind() {
    let os = TargetOs::Other;
    let translate = Commands::Translate { feature: None, allow_all: false, max_fix_attempts: None, show_full_output: false };
    let reqs = env_requests(os, &translate);
    assert_eq!(resource_path(os, "/h", &reqs[0]), "/h/python/translate_and_fix");
    assert_eq!(resource_path(os, "/h", &reqs[1]), "/h/lib/libc2rust-hybrid-build.so");
    let home = Ok("/h".to_string());
    assert_eq!(resolve_request(os, &home, &reqs[0], EntryKind::Directory), Ok("/h/python/translate_and_fix".to_string()));
    assert!(resolve_request(os, &home, &reqs[0], EntryKind::File).unwrap_err().contains("is not a directory"));
    assert_eq!(resolve_request(os, &home, &reqs[1], EntryKind::File), Ok("/h/lib/libc2rust-hybrid-build.so".to_string()));
    assert!(resolve_request(os, &home, &reqs[1], EntryKind::Missing).unwrap_err().contains("not found at path"));
}

#[test]
fn user_set_variables_are_kept() {
    let os = TargetOs::Other;
    let translate = Commands::Translate { feature: None, allow_all: false, max_fix_attempts: None, show_full_output: false };
    let reqs = env_requests(os, &translate);
    let found = vec![Ok("/h/python/translate_and_fix".to_string()), Ok("/h/lib/x.so".to_string())];
    let plan = collect_env(&reqs, &vec![true, false], &found);
    assert_eq!(plan.vars, vec![("C2RUST_HYBRID_BUILD_LIB".to_string(), "/h/lib/x.so".to_string())]);
    assert!(plan.warnings.is_empty());
    let plan = collect_env(&reqs, &vec![true, true], &found);
    assert!(plan.vars.is_empty());
    assert!(plan.warnings.is_empty());
}

#[test]
fn missing_resources_become_warnings() {
    let os = TargetOs::Other;
    let build = Commands::Build { feature: None, no_interactive: false, build_cmd: strings(&["make"]) };
    let reqs = env_requests(os, &build);
    let plan = collect_env(&reqs, &vec![false], &vec![Err("missing".to_string())]);
    assert!(plan.vars.is_empty());
    assert_eq!(plan.warnings, strings(&["missing"]));
    let plan = collect_env(&reqs, &vec![true], &vec![Err("missing".to_string())]);
    assert!(plan.warnings.is_empty());
    let plan = collect_env(&reqs, &vec![false], &vec![Ok("/h/lib/libhook.so".to_string())]);
    assert_eq!(plan.vars, vec![("C2RUST_HOOK_LIB".to_string(), "/h/lib/libhook.so".to_string())]);
}

#[test]
fn missing_tool_aborts_with_status_one() {
    let home = Ok("/tmp/c2rust_test".to_string());
    match run_tool(&unix(), &home, "init", EntryKind::Missing, strings(&["init"])) {
        Launch::Abort { message, exit_code } => {
            assert_eq!(exit_code, 1);
            assert!(message.contains("Tool 'c2rust-init' not found"));
        }
        Launch::Spawn { .. } => panic!("expected the run to be abandoned"),
    }
    let home: Result<String, String> = Err("Error: C2RUST_HOME environment variable is not set.".to_string());
    match run_tool(&unix(), &home, "init", EntryKind::File, strings(&["init"])) {
        Launch::Abort { message, exit_code } => {
            assert_eq!(exit_code, 1);
            assert!(message.contains("C2RUST_HOME environment variable is not set"));
        }
        Launch::Spawn { .. } => panic!("expected the run to be abandoned"),
    }
}

#[test]
fn found_tool_is_spawned() {
    let home = Ok("/h".to_string());
    let env = vec![("C2RUST_HOOK_LIB".to_string(), "/h/lib/libhook.so".to_string())];
    match run_tool_with_env(&unix(), &home, "build", EntryKind::File, strings(&["build", "--", "make"]), env.clone()) {
        Launch::Spawn { program, args, env: e } => {
            assert_eq!(program, "/h/bin/c2rust-build");
            assert_eq!(args, strings(&["build", "--", "make"]));
            assert_eq!(e, env);
        }
        Launch::Abort { .. } => panic!("expected the tool to be started"),
    }
    match run_tool(&unix(), &home, "init", EntryKind::File, strings(&["init"])) {
        Launch::Spawn { program, args, env: e } => {
            assert_eq!(program, "/h/bin/c2rust-init");
            assert_eq!(args, strings(&["init"]));
            assert!(e.is_empty());
        }
        Launch::Abort { .. } => panic!("expected the tool to be started"),
    }
}

#[test]
fn exit_status_mapping() {
    let done = tool_exit_status(&ProcessOutcome::Exited(0));
    assert_eq!(done.exit_code, 0);
    assert!(done.message.is_none());
    assert_eq!(tool_exit_status(&ProcessOutcome::Exited(3)).exit_code, 3);
    assert_eq!(tool_exit_status(&ProcessOutcome::Exited(-2)).exit_code, -2);
    assert_eq!(tool_exit_status(&ProcessOutcome::Signaled(9)).exit_code, 137);
    assert_eq!(tool_exit_status(&ProcessOutcome::Unknown).exit_code, 1);
    let done = tool_exit_status(&ProcessOutcome::NotStarted("permission denied".to_string()));
    assert_eq!(done.exit_code, 1);
    assert_eq!(done.message, Some("Error executing tool: permission denied".to_string()));
}
