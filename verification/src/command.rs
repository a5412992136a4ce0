use vstd::prelude::*;
use vstd::string::*;
use crate::platform::{TargetOs, spec_lib_extension, get_lib_filename};

verus! {

/// The subcommands of the front end, each with its options. Every
/// subcommand runs the tool `c2rust-<name>` of the same name.
pub enum Commands {
    /// Initialise a c2rust project.
    Init,
    /// Run the C project's build command `build_cmd`.
    Build { feature: Option<String>, no_interactive: bool, build_cmd: Vec<String> },
    /// Run the C project's test command `test_cmd`.
    Test { feature: Option<String>, test_cmd: Vec<String> },
    /// Run the C project's clean command `clean_cmd`.
    Clean { feature: Option<String>, clean_cmd: Vec<String> },
    /// Translate the C code to Rust.
    Translate {
        feature: Option<String>,
        allow_all: bool,
        max_fix_attempts: Option<usize>,
        show_full_output: bool,
    },
    /// Merge the translated Rust modules, passing `extra_args` on.
    Merge { feature: Option<String>, extra_args: Vec<String> },
}

/// The decimal digit `d` (for `d < 10`).
pub open spec fn spec_digit(d: nat) -> char {
    if d == 0 { '0' }
    else if d == 1 { '1' }
    else if d == 2 { '2' }
    else if d == 3 { '3' }
    else if d == 4 { '4' }
    else if d == 5 { '5' }
    else if d == 6 { '6' }
    else if d == 7 { '7' }
    else if d == 8 { '8' }
    else { '9' }
}

/// The decimal notation of `n`, without sign or leading zeros.
pub open spec fn spec_decimal(n: nat) -> Seq<char>
    decreases n,
{
    if n < 10 {
        seq![spec_digit(n)]
    } else {
        spec_decimal(n / 10) + seq![spec_digit(n % 10)]
    }
}

/// The name of the tool that `cmd` runs (without the `c2rust-` prefix); it
/// is also the first argument the tool is given.
pub open spec fn spec_tool_name(cmd: Commands) -> Seq<char> {
    match cmd {
        Commands::Init => "init"@,
        Commands::Build { .. } => "build"@,
        Commands::Test { .. } => "test"@,
        Commands::Clean { .. } => "clean"@,
        Commands::Translate { .. } => "translate"@,
        Commands::Merge { .. } => "merge"@,
    }
}

/// `--feature <name>` when a feature is given, nothing otherwise.
pub open spec fn spec_feature_args(feature: Option<Seq<char>>) -> Seq<Seq<char>> {
    match feature {
        Some(f) => seq!["--feature"@, f],
        None => Seq::empty(),
    }
}

/// `flag` when `on`, nothing otherwise.
pub open spec fn spec_flag_args(on: bool, flag: Seq<char>) -> Seq<Seq<char>> {
    if on { seq![flag] } else { Seq::empty() }
}

/// `--max-fix-attempts <n>` when a limit is given, nothing otherwise.
pub open spec fn spec_attempts_args(max_fix_attempts: Option<usize>) -> Seq<Seq<char>> {
    match max_fix_attempts {
        Some(n) => seq!["--max-fix-attempts"@, spec_decimal(n as nat)],
        None => Seq::empty(),
    }
}

/// The arguments the tool for `cmd` is run with.
pub open spec fn spec_tool_args(cmd: Commands) -> Seq<Seq<char>> {
    match cmd {
        Commands::Init => seq!["init"@],
        Commands::Build { feature, no_interactive, build_cmd } =>
            seq!["build"@] + spec_feature_args(feature.deep_view())
                + spec_flag_args(no_interactive, "--no-interactive"@) + seq!["--"@]
                + build_cmd.deep_view(),
        Commands::Test { feature, test_cmd } =>
            seq!["test"@] + spec_feature_args(feature.deep_view()) + seq!["--"@]
                + test_cmd.deep_view(),
        Commands::Clean { feature, clean_cmd } =>
            seq!["clean"@] + spec_feature_args(feature.deep_view()) + seq!["--"@]
                + clean_cmd.deep_view(),
        Commands::Translate { feature, allow_all, max_fix_attempts, show_full_output } =>
            seq!["translate"@] + spec_feature_args(feature.deep_view())
                + spec_flag_args(allow_all, "--allow-all"@)
                + spec_attempts_args(max_fix_attempts)
                + spec_flag_args(show_full_output, "--show-full-output"@),
        Commands::Merge { feature, extra_args } =>
            seq!["merge"@] + spec_feature_args(feature.deep_view()) + extra_args.deep_view(),
    }
}

fn digit_str(d: usize) -> (s: &'static str)
    requires
        d < 10,
    ensures
        s@ == seq![spec_digit(d as nat)],
{
    if d == 0 { proof { reveal_strlit("0"); } "0" }
    else if d == 1 { proof { reveal_strlit("1"); } "1" }
    else if d == 2 { proof { reveal_strlit("2"); } "2" }
    else if d == 3 { proof { reveal_strlit("3"); } "3" }
    else if d == 4 { proof { reveal_strlit("4"); } "4" }
    else if d == 5 { proof { reveal_strlit("5"); } "5" }
    else if d == 6 { proof { reveal_strlit("6"); } "6" }
    else if d == 7 { proof { reveal_strlit("7"); } "7" }
    else if d == 8 { proof { reveal_strlit("8"); } "8" }
    else { proof { reveal_strlit("9"); } "9" }
}

/// The decimal notation of `n`, as `n.to_string()` writes it.
pub fn decimal_string(n: usize) -> (s: String)
    ensures
        s@ == spec_decimal(n as nat),
    decreases n,
{
    if n < 10 {
        digit_str(n).to_owned()
    } else {
        let mut s = decimal_string(n / 10);
        s.append(digit_str(n % 10));
        s
    }
}

/// Appends one string.
fn push_one(args: &mut Vec<String>, s: String)
    ensures
        final(args).deep_view() == old(args).deep_view().push(s@),
{
    let ghost before = args.deep_view();
    args.push(s);
    assert(args.deep_view() =~= before.push(s@));
}

/// Appends copies of the strings of `extra` to `args`.
fn push_all(args: &mut Vec<String>, extra: &Vec<String>)
    ensures
        final(args).deep_view() == old(args).deep_view() + extra.deep_view(),
{
    let ghost start = args.deep_view();
    let mut i: usize = 0;
    while i < extra.len()
        invariant
            i <= extra.len(),
            args.deep_view() == start + extra.deep_view().take(i as int),
        decreases extra.len() - i,
    {
        let ghost before = args.deep_view();
        args.push(extra[i].clone());
        assert(args.deep_view() =~= before.push(extra[i as int]@));
        assert(extra.deep_view().take(i + 1) =~= extra.deep_view().take(i as int).push(extra[i as int]@));
        i = i + 1;
    }
    assert(extra.deep_view().take(i as int) =~= extra.deep_view());
}

/// Appends `--feature <name>` when a feature is given.
fn push_feature(args: &mut Vec<String>, feature: &Option<String>)
    ensures
        final(args).deep_view() == old(args).deep_view() + spec_feature_args(feature.deep_view()),
{
    match feature {
        Some(f) => {
            let ghost before = args.deep_view();
            args.push("--feature".to_owned());
            args.push(f.clone());
            assert(args.deep_view() =~= before + spec_feature_args(feature.deep_view()));
        },
        None => {
            assert(args.deep_view() =~= args.deep_view() + spec_feature_args(feature.deep_view()));
        },
    }
}

/// Appends `flag` when `on`.
fn push_flag(args: &mut Vec<String>, on: bool, flag: &str)
    ensures
        final(args).deep_view() == old(args).deep_view() + spec_flag_args(on, flag@),
{
    let ghost before = args.deep_view();
    if on {
        args.push(flag.to_owned());
    }
    assert(args.deep_view() =~= before + spec_flag_args(on, flag@));
}

/// Returns the name of the tool that `cmd` runs (`init`, `build`, `test`,
/// `clean`, `translate` or `merge`).
pub fn tool_name(cmd: &Commands) -> (name: String)
    ensures
        name@ == spec_tool_name(*cmd),
{
    match cmd {
        Commands::Init => "init".to_owned(),
        Commands::Build { .. } => "build".to_owned(),
        Commands::Test { .. } => "test".to_owned(),
        Commands::Clean { .. } => "clean".to_owned(),
        Commands::Translate { .. } => "translate".to_owned(),
        Commands::Merge { .. } => "merge".to_owned(),
    }
}

/// Returns the arguments that the tool for `cmd` is run with: the
/// subcommand's name, then `--feature <name>` if a feature was given, then
/// the subcommand's own flags, and for `build`, `test` and `clean` a `--`
/// followed by the user's command; `merge` passes its extra arguments on
/// as they are.
pub fn tool_args(cmd: &Commands) -> (args: Vec<String>)
    ensures
        args.deep_view() == spec_tool_args(*cmd),
{
    let mut args: Vec<String> = Vec::new();
    push_one(&mut args, tool_name(cmd));
    match cmd {
        Commands::Init => {},
        Commands::Build { feature, no_interactive, build_cmd } => {
            push_feature(&mut args, feature);
            push_flag(&mut args, *no_interactive, "--no-interactive");
            push_one(&mut args, "--".to_owned());
            push_all(&mut args, build_cmd);
        },
        Commands::Test { feature, test_cmd } => {
            push_feature(&mut args, feature);
            push_one(&mut args, "--".to_owned());
            push_all(&mut args, test_cmd);
        },
        Commands::Clean { feature, clean_cmd } => {
            push_feature(&mut args, feature);
            push_one(&mut args, "--".to_owned());
            push_all(&mut args, clean_cmd);
        },
        Commands::Translate { feature, allow_all, max_fix_attempts, show_full_output } => {
            push_feature(&mut args, feature);
            push_flag(&mut args, *allow_all, "--allow-all");
            match max_fix_attempts {
                Some(n) => {
                    push_one(&mut args, "--max-fix-attempts".to_owned());
                    push_one(&mut args, decimal_string(*n));
                },
                None => {},
            }
            push_flag(&mut args, *show_full_output, "--show-full-output");
        },
        Commands::Merge { feature, extra_args } => {
            push_feature(&mut args, feature);
            push_all(&mut args, extra_args);
        },
    }
    assert(args.deep_view() =~= spec_tool_args(*cmd));
    args
}

/// What an environment variable set for a tool points to.
#[derive(Clone, Copy, Debug, PartialEq, Eq)]
pub enum ResourceKind {
    /// A library file in `$C2RUST_HOME/lib`.
    Library,
    /// A directory in `$C2RUST_HOME/python`.
    PythonDir,
}

/// An environment variable that a tool is given, unless the user has set
/// it already: `var` is to point to the resource `name` of kind `kind`.
pub struct EnvRequest {
    pub var: String,
    pub kind: ResourceKind,
    pub name: String,
}

impl View for EnvRequest {
    type V = (Seq<char>, ResourceKind, Seq<char>);

    open spec fn view(&self) -> (Seq<char>, ResourceKind, Seq<char>) {
        (self.var@, self.kind, self.name@)
    }
}

/// The variables that the tool for `cmd` is given by default: `build`
/// points `C2RUST_HOOK_LIB` at the hook library; `translate` points
/// `C2RUST_TRANSLATE_DIR` at the `translate_and_fix` Python directory and
/// `C2RUST_HYBRID_BUILD_LIB` at the hybrid build library.
pub open spec fn spec_env_requests(os: TargetOs, cmd: Commands) -> Seq<(Seq<char>, ResourceKind, Seq<char>)> {
    match cmd {
        Commands::Build { .. } => seq![
            ("C2RUST_HOOK_LIB"@, ResourceKind::Library, "libhook"@ + spec_lib_extension(os)),
        ],
        Commands::Translate { .. } => seq![
            ("C2RUST_TRANSLATE_DIR"@, ResourceKind::PythonDir, "translate_and_fix"@),
            ("C2RUST_HYBRID_BUILD_LIB"@, ResourceKind::Library, "libc2rust-hybrid-build"@ + spec_lib_extension(os)),
        ],
        _ => Seq::empty(),
    }
}

/// The views of a list of requests.
pub open spec fn requests_view(reqs: Seq<EnvRequest>) -> Seq<(Seq<char>, ResourceKind, Seq<char>)> {
    reqs.map_values(|r: EnvRequest| r@)
}

/// Everything needed to run a subcommand: the tool's name, its arguments,
/// and the environment variables it is to be given by default.
pub struct Invocation {
    pub tool: String,
    pub args: Vec<String>,
    pub env_requests: Vec<EnvRequest>,
}

/// Returns the default environment variables of the tool for `cmd`
/// (see [`spec_env_requests`]).
pub fn env_requests(os: TargetOs, cmd: &Commands) -> (reqs: Vec<EnvRequest>)
    ensures
        requests_view(reqs@) == spec_env_requests(os, *cmd),
{
    let mut reqs: Vec<EnvRequest> = Vec::new();
    match cmd {
        Commands::Build { .. } => {
            reqs.push(EnvRequest {
                var: "C2RUST_HOOK_LIB".to_owned(),
                kind: ResourceKind::Library,
                name: get_lib_filename(os, "libhook"),
            });
        },
        Commands::Translate { .. } => {
            reqs.push(EnvRequest {
                var: "C2RUST_TRANSLATE_DIR".to_owned(),
                kind: ResourceKind::PythonDir,
                name: "translate_and_fix".to_owned(),
            });
            reqs.push(EnvRequest {
                var: "C2RUST_HYBRID_BUILD_LIB".to_owned(),
                kind: ResourceKind::Library,
                name: get_lib_filename(os, "libc2rust-hybrid-build"),
            });
        },
        _ => {},
    }
    assert(requests_view(reqs@) =~= spec_env_requests(os, *cmd));
    reqs
}

/// Plans the run of `cmd`: the tool `c2rust-<name>`, its arguments, and its
/// default environment variables.
pub fn plan_command(os: TargetOs, cmd: &Commands) -> (inv: Invocation)
    ensures
        inv.tool@ == spec_tool_name(*cmd),
        inv.args.deep_view() == spec_tool_args(*cmd),
        requests_view(inv.env_requests@) == spec_env_requests(os, *cmd),
{
    Invocation { tool: tool_name(cmd), args: tool_args(cmd), env_requests: env_requests(os, cmd) }
}

} // verus!
