use c2rust::install::{
    bin_dir, get_c2rust_home, get_lib_path, get_python_dir, get_tool_path, lib_path, python_dir,
    tool_file_name, tool_path, EntryKind,
};
use c2rust::path::join_path;
use c2rust::platform::{get_lib_extension, get_lib_filename, Platform, TargetOs};

fn unix() -> Platform {
    Platform { os: TargetOs::Other, exe_suffix: String::new() }
}

fn windows() -> Platform {
    Platform { os: TargetOs::Windows, exe_suffix: ".exe".to_string() }
}

fn home_ok(h: &str) -> Result<String, String> {
    Ok(h.to_string())
}

#[test]
fn lib_extension_per_platform() {
    assert_eq!(get_lib_extension(TargetOs::Other), ".so");
    assert_eq!(get_lib_extension(TargetOs::MacOs), ".dylib");
    assert_eq!(get_lib_extension(TargetOs::Windows), ".dll");
}

#[test]
fn lib_filename_per_platform() {
    assert_eq!(get_lib_filename(TargetOs::Other, "libhook"), "libhook.so");
    assert_eq!(get_lib_filename(TargetOs::MacOs, "libhook"), "libhook.dylib");
    assert_eq!(get_lib_filename(TargetOs::Windows, "libhook"), "libhook.dll");
    assert_eq!(
        get_lib_filename(TargetOs::Other, "libc2rust-hybrid-build"),
        "libc2rust-hybrid-build.so"
    );
}

#[test]
fn join_inserts_one_separator() {
    assert_eq!(join_path(TargetOs::Other, "/opt/c2rust", "bin"), "/opt/c2rust/bin");
    assert_eq!(join_path(TargetOs::Other, "/opt/c2rust/", "bin"), "/opt/c2rust/bin");
    assert_eq!(join_path(TargetOs::Other, "", "bin"), "bin");
    assert_eq!(join_path(TargetOs::Other, "/opt", "/etc"), "/etc");
    assert_eq!(join_path(TargetOs::Other, "a", ""), "a/");
    assert_eq!(join_path(TargetOs::Other, "a\\", "b"), "a\\/b");
}

#[test]
fn join_on_windows() {
    assert_eq!(join_path(TargetOs::Windows, "C:\\c2rust", "bin"), "C:\\c2rust\\bin");
    assert_eq!(join_path(TargetOs::Windows, "C:\\c2rust\\", "bin"), "C:\\c2rust\\bin");
    assert_eq!(join_path(TargetOs::Windows, "C:/c2rust/", "bin"), "C:/c2rust/bin");
    assert_eq!(join_path(TargetOs::Windows, "\\c2rust", "\\x"), "\\x");
}

#[test]
fn join_with_windows_drives() {
    assert_eq!(join_path(TargetOs::Windows, "C:", "bin"), "C:bin");
    assert_eq!(join_path(TargetOs::Windows, "C:foo", "bin"), "C:foo\\bin");
    assert_eq!(join_path(TargetOs::Windows, "C:\\c2rust", "\\x"), "C:\\x");
    assert_eq!(join_path(TargetOs::Windows, "C:\\c2rust", "D:\\x"), "D:\\x");
    assert_eq!(join_path(TargetOs::Windows, "C:\\c2rust", "d:x"), "d:x");
    assert_eq!(join_path(TargetOs::Other, "C:", "bin"), "C:/bin");
    assert_eq!(join_path(TargetOs::Other, "/h", "D:x"), "/h/D:x");
}

#[test]
fn join_with_verbatim_prefixes() {
    let w = TargetOs::Windows;
    assert_eq!(join_path(w, "\\\\?\\C:\\c2rust\\\\", "bin"), "\\\\?\\C:\\c2rust\\bin");
    assert_eq!(join_path(w, "\\\\?\\C:\\c2rust", "bin"), "\\\\?\\C:\\c2rust\\bin");
    assert_eq!(join_path(w, "\\\\?\\C:\\c2rust", "a/b"), "\\\\?\\C:\\c2rust\\a\\b");
    assert_eq!(join_path(w, "\\\\?\\C:\\a\\b", "..\\x"), "\\\\?\\C:\\a\\x");
    assert_eq!(join_path(w, "\\\\?\\C:\\a\\b", ".\\x"), "\\\\?\\C:\\a\\b\\x");
    assert_eq!(join_path(w, "\\\\?\\C:\\a", "\\x"), "\\\\?\\C:\\x");
    assert_eq!(join_path(w, "\\\\?\\C:\\", "..\\x"), "\\\\?\\C:\\x");
    assert_eq!(join_path(w, "\\\\?\\UNC\\server\\share", "bin"), "\\\\?\\UNC\\server\\share\\bin");
    assert_eq!(join_path(w, "\\\\?\\C:\\c2rust", ""), "\\\\?\\C:\\c2rust\\");
}

#[test]
fn join_with_network_and_device_prefixes() {
    let w = TargetOs::Windows;
    assert_eq!(join_path(w, "\\\\server\\share", "bin"), "\\\\server\\share\\bin");
    assert_eq!(join_path(w, "\\\\server\\share\\x", "\\y"), "\\\\server\\share\\y");
    assert_eq!(join_path(w, "\\\\server\\share", "\\\\other\\s2\\x"), "\\\\other\\s2\\x");
    assert_eq!(join_path(w, "C:\\c2rust", "\\\\.\\COM1"), "\\\\.\\COM1");
    assert_eq!(join_path(w, "//?/C:/x", "bin"), "//?/C:/x\\bin");
    assert_eq!(join_path(w, "\\\\server", "bin"), "\\\\server\\bin");
}

#[test]
fn install_paths() {
    let os = TargetOs::Other;
    assert_eq!(bin_dir(os, "/h"), "/h/bin");
    assert_eq!(tool_file_name(&unix(), "init"), "c2rust-init");
    assert_eq!(tool_file_name(&windows(), "init"), "c2rust-init.exe");
    let uefi = Platform { os: TargetOs::Other, exe_suffix: ".efi".to_string() };
    assert_eq!(tool_file_name(&uefi, "init"), "c2rust-init.efi");
    assert_eq!(tool_path(&unix(), "/h", "build"), "/h/bin/c2rust-build");
    assert_eq!(tool_path(&windows(), "C:\\h", "build"), "C:\\h\\bin\\c2rust-build.exe");
    assert_eq!(tool_path(&windows(), "C:", "build"), "C:bin\\c2rust-build.exe");
    assert_eq!(lib_path(os, "/h", "libhook.so"), "/h/lib/libhook.so");
    assert_eq!(python_dir(os, "/h", "translate_and_fix"), "/h/python/translate_and_fix");
}

#[test]
fn home_not_set_is_reported() {
    let home = get_c2rust_home(None, EntryKind::Missing);
    let err = home.unwrap_err();
    assert!(err.contains("C2RUST_HOME environment variable is not set"));
    assert!(err.contains("Please set C2RUST_HOME"));
    assert_eq!(
        err,
        "Error: C2RUST_HOME environment variable is not set.\n\
Please set C2RUST_HOME to the root directory of your c2rust installation.\n\
Example: export C2RUST_HOME=/path/to/c2rust"
    );
}

#[test]
fn home_not_a_directory() {
    for kind in [EntryKind::Missing, EntryKind::File, EntryKind::Other] {
        let home = get_c2rust_home(Some("/nowhere".to_string()), kind);
        assert_eq!(
            home,
            Err("Error: C2RUST_HOME is not a directory: /nowhere\n\
Please set C2RUST_HOME to the root directory of your c2rust installation.\n\
Example: export C2RUST_HOME=/path/to/c2rust"
                .to_string())
        );
    }
}

#[test]
fn home_found() {
    let home = get_c2rust_home(Some("/h".to_string()), EntryKind::Directory);
    assert_eq!(home, Ok("/h".to_string()));
}

#[test]
fn home_without_tools_reports_missing_tool() {
    let home = get_c2rust_home(Some("/tmp/c2rust_test".to_string()), EntryKind::Directory);
    let tool = get_tool_path(&unix(), &home, "init", EntryKind::Missing);
    assert!(tool.unwrap_err().contains("Tool 'c2rust-init' not found"));
}

#[test]
fn missing_tool_is_reported() {
    let tool = get_tool_path(&unix(), &home_ok("/tmp/c2rust_test"), "init", EntryKind::Missing);
    let err = tool.unwrap_err();
    assert!(err.contains("Tool 'c2rust-init' not found"));
    assert_eq!(
        err,
        "Error: Tool 'c2rust-init' not found at path: /tmp/c2rust_test/bin/c2rust-init\n\
Please ensure the tool is installed in $C2RUST_HOME/bin/"
    );
}

#[test]
fn missing_tool_on_windows_names_exe() {
    let tool = get_tool_path(&windows(), &home_ok("C:\\c2"), "init", EntryKind::Missing);
    assert!(tool.unwrap_err().contains("Tool 'c2rust-init.exe' not found at path: C:\\c2\\bin\\c2rust-init.exe"));
}

#[test]
fn tool_that_is_not_a_file() {
    let tool = get_tool_path(&unix(), &home_ok("/h"), "merge", EntryKind::Directory);
    assert_eq!(
        tool,
        Err("Error: Tool path exists but is not a file: /h/bin/c2rust-merge\n\
Please ensure c2rust-merge is an executable file in $C2RUST_HOME/bin/"
            .to_string())
    );
}

#[test]
fn tool_found() {
    let tool = get_tool_path(&unix(), &home_ok("/h"), "translate", EntryKind::File);
    assert_eq!(tool, Ok("/h/bin/c2rust-translate".to_string()));
}

#[test]
fn home_failure_passes_through_every_lookup() {
    let home: Result<String, String> = Err("no home".to_string());
    let os = TargetOs::Other;
    assert_eq!(get_tool_path(&unix(), &home, "init", EntryKind::File), Err("no home".to_string()));
    assert_eq!(get_lib_path(os, &home, "libhook.so", EntryKind::File), Err("no home".to_string()));
    assert_eq!(get_python_dir(os, &home, "translate_and_fix", EntryKind::Directory), Err("no home".to_string()));
}

#[test]
fn library_lookup_outcomes() {
    let os = TargetOs::Other;
    let home = home_ok("/h");
    assert_eq!(
        get_lib_path(os, &home, "libhook.so", EntryKind::Missing),
        Err("Warning: Library 'libhook.so' not found at path: /h/lib/libhook.so\n\
Please ensure the library is installed in $C2RUST_HOME/lib/"
            .to_string())
    );
    assert_eq!(
        get_lib_path(os, &home, "libhook.so", EntryKind::Directory),
        Err("Warning: Path '/h/lib/libhook.so' for library 'libhook.so' exists but is not a file.\n\
Please ensure that 'libhook.so' is a regular file in $C2RUST_HOME/lib/"
            .to_string())
    );
    assert_eq!(
        get_lib_path(os, &home, "libhook.so", EntryKind::File),
        Ok("/h/lib/libhook.so".to_string())
    );
}

#[test]
fn python_dir_lookup_outcomes() {
    let os = TargetOs::Other;
    let home = home_ok("/h");
    assert_eq!(
        get_python_dir(os, &home, "translate_and_fix", EntryKind::Missing),
        Err("Warning: Python directory 'translate_and_fix' not found at path: /h/python/translate_and_fix\n\
Please ensure the directory exists in $C2RUST_HOME/python/"
            .to_string())
    );
    assert_eq!(
        get_python_dir(os, &home, "translate_and_fix", EntryKind::File),
        Err("Warning: Path '/h/python/translate_and_fix' exists but is not a directory.\n\
Expected a directory named 'translate_and_fix' under $C2RUST_HOME/python/"
            .to_string())
    );
    assert_eq!(
        get_python_dir(os, &home, "translate_and_fix", EntryKind::Directory),
        Ok("/h/python/translate_and_fix".to_string())
    );
}
