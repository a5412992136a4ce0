use vstd::prelude::*;
use vstd::string::*;
use crate::platform::{TargetOs, Platform};
use crate::path::{spec_join, join_path};

verus! {

/// What a path names on disk, as far as the lookups below care.
#[derive(Clone, Copy, Debug, PartialEq, Eq)]
pub enum EntryKind {
    /// Nothing can be found there (also when it cannot be inspected).
    Missing,
    /// A regular file.
    File,
    /// A directory.
    Directory,
    /// Something else that exists.
    Other,
}

impl EntryKind {
    pub open spec fn spec_exists(self) -> bool {
        !(self is Missing)
    }

    pub open spec fn spec_is_file(self) -> bool {
        self is File
    }

    pub open spec fn spec_is_dir(self) -> bool {
        self is Directory
    }
}

/// A lookup result with its strings taken as character sequences.
pub open spec fn result_view(r: Result<String, String>) -> Result<Seq<char>, Seq<char>> {
    match r {
        Ok(s) => Ok(s@),
        Err(e) => Err(e@),
    }
}

/// `$C2RUST_HOME/bin`.
pub open spec fn spec_bin_dir(os: TargetOs, home: Seq<char>) -> Seq<char> {
    spec_join(os, home, "bin"@)
}

/// The file name of the tool for a subcommand: `c2rust-<name>` with the
/// platform's executable suffix.
pub open spec fn spec_tool_file_name(platform: Platform, tool_name: Seq<char>) -> Seq<char> {
    "c2rust-"@ + tool_name + platform.exe_suffix@
}

/// `$C2RUST_HOME/bin/c2rust-<name><suffix>`.
pub open spec fn spec_tool_path(platform: Platform, home: Seq<char>, tool_name: Seq<char>) -> Seq<char> {
    spec_join(platform.os, spec_bin_dir(platform.os, home), spec_tool_file_name(platform, tool_name))
}

/// `$C2RUST_HOME/lib/<lib_name>`.
pub open spec fn spec_lib_path(os: TargetOs, home: Seq<char>, lib_name: Seq<char>) -> Seq<char> {
    spec_join(os, spec_join(os, home, "lib"@), lib_name)
}

/// `$C2RUST_HOME/python/<dir_name>`.
pub open spec fn spec_python_dir(os: TargetOs, home: Seq<char>, dir_name: Seq<char>) -> Seq<char> {
    spec_join(os, spec_join(os, home, "python"@), dir_name)
}

pub open spec fn msg_home_not_set() -> Seq<char> {
    "Error: C2RUST_HOME environment variable is not set.\nPlease set C2RUST_HOME to the root directory of your c2rust installation.\nExample: export C2RUST_HOME=/path/to/c2rust"@
}

pub open spec fn msg_home_not_dir(home: Seq<char>) -> Seq<char> {
    "Error: C2RUST_HOME is not a directory: "@ + home
        + "\nPlease set C2RUST_HOME to the root directory of your c2rust installation.\nExample: export C2RUST_HOME=/path/to/c2rust"@
}

pub open spec fn msg_tool_not_found(file_name: Seq<char>, path: Seq<char>) -> Seq<char> {
    "Error: Tool '"@ + file_name + "' not found at path: "@ + path
        + "\nPlease ensure the tool is installed in $C2RUST_HOME/bin/"@
}

pub open spec fn msg_tool_not_file(path: Seq<char>, file_name: Seq<char>) -> Seq<char> {
    "Error: Tool path exists but is not a file: "@ + path + "\nPlease ensure "@ + file_name
        + " is an executable file in $C2RUST_HOME/bin/"@
}

pub open spec fn msg_lib_not_found(lib_name: Seq<char>, path: Seq<char>) -> Seq<char> {
    "Warning: Library '"@ + lib_name + "' not found at path: "@ + path
        + "\nPlease ensure the library is installed in $C2RUST_HOME/lib/"@
}

pub open spec fn msg_lib_not_file(path: Seq<char>, lib_name: Seq<char>) -> Seq<char> {
    "Warning: Path '"@ + path + "' for library '"@ + lib_name
        + "' exists but is not a file.\nPlease ensure that '"@ + lib_name
        + "' is a regular file in $C2RUST_HOME/lib/"@
}

pub open spec fn msg_python_dir_not_found(dir_name: Seq<char>, path: Seq<char>) -> Seq<char> {
    "Warning: Python directory '"@ + dir_name + "' not found at path: "@ + path
        + "\nPlease ensure the directory exists in $C2RUST_HOME/python/"@
}

pub open spec fn msg_python_dir_not_dir(path: Seq<char>, dir_name: Seq<char>) -> Seq<char> {
    "Warning: Path '"@ + path + "' exists but is not a directory.\nExpected a directory named '"@
        + dir_name + "' under $C2RUST_HOME/python/"@
}

/// The outcome of locating the installation: `var` is the value of
/// `C2RUST_HOME` (`None` when unset or not valid Unicode) and `home_kind`
/// what that path names.
pub open spec fn spec_c2rust_home(var: Option<Seq<char>>, home_kind: EntryKind) -> Result<Seq<char>, Seq<char>> {
    match var {
        None => Err(msg_home_not_set()),
        Some(home) => if !home_kind.spec_is_dir() {
            Err(msg_home_not_dir(home))
        } else {
            Ok(home)
        },
    }
}

/// The outcome of locating the tool for `tool_name`, given the outcome of
/// locating the installation and what the tool's path names.
pub open spec fn spec_tool_lookup(
    platform: Platform,
    home: Result<Seq<char>, Seq<char>>,
    tool_name: Seq<char>,
    tool_kind: EntryKind,
) -> Result<Seq<char>, Seq<char>> {
    match home {
        Err(e) => Err(e),
        Ok(h) => {
            let path = spec_tool_path(platform, h, tool_name);
            let file_name = spec_tool_file_name(platform, tool_name);
            if !tool_kind.spec_exists() {
                Err(msg_tool_not_found(file_name, path))
            } else if !tool_kind.spec_is_file() {
                Err(msg_tool_not_file(path, file_name))
            } else {
                Ok(path)
            }
        },
    }
}

/// The outcome of locating the library `lib_name`.
pub open spec fn spec_lib_lookup(
    os: TargetOs,
    home: Result<Seq<char>, Seq<char>>,
    lib_name: Seq<char>,
    lib_kind: EntryKind,
) -> Result<Seq<char>, Seq<char>> {
    match home {
        Err(e) => Err(e),
        Ok(h) => {
            let path = spec_lib_path(os, h, lib_name);
            if !lib_kind.spec_exists() {
                Err(msg_lib_not_found(lib_name, path))
            } else if !lib_kind.spec_is_file() {
                Err(msg_lib_not_file(path, lib_name))
            } else {
                Ok(path)
            }
        },
    }
}

/// The outcome of locating the Python directory `dir_name`.
pub open spec fn spec_python_dir_lookup(
    os: TargetOs,
    home: Result<Seq<char>, Seq<char>>,
    dir_name: Seq<char>,
    dir_kind: EntryKind,
) -> Result<Seq<char>, Seq<char>> {
    match home {
        Err(e) => Err(e),
        Ok(h) => {
            let path = spec_python_dir(os, h, dir_name);
            if !dir_kind.spec_exists() {
                Err(msg_python_dir_not_found(dir_name, path))
            } else if !dir_kind.spec_is_dir() {
                Err(msg_python_dir_not_dir(path, dir_name))
            } else {
                Ok(path)
            }
        },
    }
}

fn is_dir(kind: EntryKind) -> (b: bool)
    ensures
        b == kind.spec_is_dir(),
{
    match kind {
        EntryKind::Directory => true,
        _ => false,
    }
}

fn is_file(kind: EntryKind) -> (b: bool)
    ensures
        b == kind.spec_is_file(),
{
    match kind {
        EntryKind::File => true,
        _ => false,
    }
}

fn entry_exists(kind: EntryKind) -> (b: bool)
    ensures
        b == kind.spec_exists(),
{
    match kind {
        EntryKind::Missing => false,
        _ => true,
    }
}

/// Concatenation of three strings.
fn concat3(a: &str, b: &str, c: &str) -> (s: String)
    ensures
        s@ == a@ + b@ + c@,
{
    let mut s = a.to_owned();
    s.append(b);
    s.append(c);
    s
}

/// Concatenation of five strings.
fn concat5(a: &str, b: &str, c: &str, d: &str, e: &str) -> (s: String)
    ensures
        s@ == a@ + b@ + c@ + d@ + e@,
{
    let mut s = a.to_owned();
    s.append(b);
    s.append(c);
    s.append(d);
    s.append(e);
    s
}

/// `$C2RUST_HOME/bin`, the directory that holds the tools.
pub fn bin_dir(os: TargetOs, home: &str) -> (dir: String)
    ensures
        dir@ == spec_bin_dir(os, home@),
{
    join_path(os, home, "bin")
}

/// The file name of the tool for `tool_name`: `c2rust-<tool_name>` followed
/// by the executable suffix of the platform.
pub fn tool_file_name(platform: &Platform, tool_name: &str) -> (name: String)
    ensures
        name@ == spec_tool_file_name(*platform, tool_name@),
{
    concat3("c2rust-", tool_name, platform.exe_suffix.as_str())
}

/// Where the tool for `tool_name` lies: `$C2RUST_HOME/bin/c2rust-<tool_name>`
/// with the executable suffix of the platform.
pub fn tool_path(platform: &Platform, home: &str, tool_name: &str) -> (path: String)
    ensures
        path@ == spec_tool_path(*platform, home@, tool_name@),
{
    let bin = bin_dir(platform.os, home);
    let file_name = tool_file_name(platform, tool_name);
    join_path(platform.os, bin.as_str(), file_name.as_str())
}

/// Where the library `lib_name` lies: `$C2RUST_HOME/lib/<lib_name>`.
pub fn lib_path(os: TargetOs, home: &str, lib_name: &str) -> (path: String)
    ensures
        path@ == spec_lib_path(os, home@, lib_name@),
{
    let lib = join_path(os, home, "lib");
    join_path(os, lib.as_str(), lib_name)
}

/// Where the Python directory `dir_name` lies: `$C2RUST_HOME/python/<dir_name>`.
pub fn python_dir(os: TargetOs, home: &str, dir_name: &str) -> (path: String)
    ensures
        path@ == spec_python_dir(os, home@, dir_name@),
{
    let python = join_path(os, home, "python");
    join_path(os, python.as_str(), dir_name)
}

/// Locates the c2rust installation. `var` is the value of `C2RUST_HOME`
/// (`None` when it is unset or not valid Unicode) and `home_kind` what that
/// path names. The installation is `Ok` exactly when the variable is set and
/// names a directory; each failure has its own message. Whether the tools
/// are present in `$C2RUST_HOME/bin` is left to the lookup of each tool
/// ([`get_tool_path`]), which reports a tool that is not found.
pub fn get_c2rust_home(var: Option<String>, home_kind: EntryKind) -> (home: Result<String, String>)
    ensures
        result_view(home) == spec_c2rust_home(var.deep_view(), home_kind),
{
    match var {
        None => Err(
            "Error: C2RUST_HOME environment variable is not set.\nPlease set C2RUST_HOME to the root directory of your c2rust installation.\nExample: export C2RUST_HOME=/path/to/c2rust".to_owned(),
        ),
        Some(home) => {
            if !is_dir(home_kind) {
                return Err(
                    concat3(
                        "Error: C2RUST_HOME is not a directory: ",
                        home.as_str(),
                        "\nPlease set C2RUST_HOME to the root directory of your c2rust installation.\nExample: export C2RUST_HOME=/path/to/c2rust",
                    ),
                );
            }
            Ok(home)
        },
    }
}

/// Locates the tool for `tool_name` in the installation `home`, where
/// `tool_kind` is what the tool's path ([`tool_path`]) names. A failed
/// installation lookup is passed on unchanged; otherwise the tool must exist
/// and be a regular file.
pub fn get_tool_path(
    platform: &Platform,
    home: &Result<String, String>,
    tool_name: &str,
    tool_kind: EntryKind,
) -> (tool: Result<String, String>)
    ensures
        result_view(tool) == spec_tool_lookup(*platform, result_view(*home), tool_name@, tool_kind),
{
    match home {
        Err(e) => Err(e.clone()),
        Ok(h) => {
            let path = tool_path(platform, h.as_str(), tool_name);
            let file_name = tool_file_name(platform, tool_name);
            if !entry_exists(tool_kind) {
                return Err(
                    concat5(
                        "Error: Tool '",
                        file_name.as_str(),
                        "' not found at path: ",
                        path.as_str(),
                        "\nPlease ensure the tool is installed in $C2RUST_HOME/bin/",
                    ),
                );
            }
            if !is_file(tool_kind) {
                return Err(
                    concat5(
                        "Error: Tool path exists but is not a file: ",
                        path.as_str(),
                        "\nPlease ensure ",
                        file_name.as_str(),
                        " is an executable file in $C2RUST_HOME/bin/",
                    ),
                );
            }
            Ok(path)
        },
    }
}

/// Locates the library file `lib_name` in `$C2RUST_HOME/lib`, where
/// `lib_kind` is what its path ([`lib_path`]) names. A failed installation
/// lookup is passed on unchanged; otherwise the library must exist and be a
/// regular file. The messages start with `Warning:`: a missing library is
/// not fatal to the caller.
pub fn get_lib_path(os: TargetOs, home: &Result<String, String>, lib_name: &str, lib_kind: EntryKind) -> (lib: Result<String, String>)
    ensures
        result_view(lib) == spec_lib_lookup(os, result_view(*home), lib_name@, lib_kind),
{
    match home {
        Err(e) => Err(e.clone()),
        Ok(h) => {
            let path = lib_path(os, h.as_str(), lib_name);
            if !entry_exists(lib_kind) {
                return Err(
                    concat5(
                        "Warning: Library '",
                        lib_name,
                        "' not found at path: ",
                        path.as_str(),
                        "\nPlease ensure the library is installed in $C2RUST_HOME/lib/",
                    ),
                );
            }
            if !is_file(lib_kind) {
                let mut msg = concat5(
                    "Warning: Path '",
                    path.as_str(),
                    "' for library '",
                    lib_name,
                    "' exists but is not a file.\nPlease ensure that '",
                );
                msg.append(lib_name);
                msg.append("' is a regular file in $C2RUST_HOME/lib/");
                return Err(msg);
            }
            Ok(path)
        },
    }
}

/// Locates the directory `dir_name` in `$C2RUST_HOME/python`, where
/// `dir_kind` is what its path ([`python_dir`]) names. A failed installation
/// lookup is passed on unchanged; otherwise the entry must exist and be a
/// directory. The messages start with `Warning:`: a missing directory is not
/// fatal to the caller.
pub fn get_python_dir(os: TargetOs, home: &Result<String, String>, dir_name: &str, dir_kind: EntryKind) -> (dir: Result<String, String>)
    ensures
        result_view(dir) == spec_python_dir_lookup(os, result_view(*home), dir_name@, dir_kind),
{
    match home {
        Err(e) => Err(e.clone()),
        Ok(h) => {
            let path = python_dir(os, h.as_str(), dir_name);
            if !entry_exists(dir_kind) {
                return Err(
                    concat5(
                        "Warning: Python directory '",
                        dir_name,
                        "' not found at path: ",
                        path.as_str(),
                        "\nPlease ensure the directory exists in $C2RUST_HOME/python/",
                    ),
                );
            }
            if !is_dir(dir_kind) {
                return Err(
                    concat5(
                        "Warning: Path '",
                        path.as_str(),
                        "' exists but is not a directory.\nExpected a directory named '",
                        dir_name,
                        "' under $C2RUST_HOME/python/",
                    ),
                );
            }
            Ok(path)
        },
    }
}

} // verus!
