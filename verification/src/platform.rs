use vstd::prelude::*;
use vstd::string::*;

verus! {

/// The operating system the front end was built for, as far as file names
/// depend on it.
#[derive(Clone, Copy, Debug, PartialEq, Eq)]
pub enum TargetOs {
    /// macOS: dynamic libraries end in `.dylib`.
    MacOs,
    /// Windows: dynamic libraries end in `.dll`, `\` separates path
    /// components, and paths may start with a drive such as `C:`.
    Windows,
    /// Every other target (Linux and the like): `.so` libraries and `/` as
    /// separator.
    Other,
}

/// The extension of a dynamic library on `os`.
pub open spec fn spec_lib_extension(os: TargetOs) -> Seq<char> {
    match os {
        TargetOs::MacOs => ".dylib"@,
        TargetOs::Windows => ".dll"@,
        TargetOs::Other => ".so"@,
    }
}

/// Returns the platform-specific dynamic library file extension:
/// `.so` on Linux, `.dylib` on macOS, `.dll` on Windows.
pub fn get_lib_extension(os: TargetOs) -> (ext: &'static str)
    ensures
        ext@ == spec_lib_extension(os),
{
    match os {
        TargetOs::MacOs => ".dylib",
        TargetOs::Windows => ".dll",
        TargetOs::Other => ".so",
    }
}

/// The build target, as far as finding the tools depends on it: the
/// operating system, and the suffix that the target's executables carry
/// (`.exe` on Windows, empty on Linux and macOS, and so on).
pub struct Platform {
    pub os: TargetOs,
    pub exe_suffix: String,
}

/// Constructs the platform-specific library file name: `libhook` becomes
/// `libhook.so` on Linux, `libhook.dylib` on macOS, `libhook.dll` on Windows.
pub fn get_lib_filename(os: TargetOs, base_name: &str) -> (file_name: String)
    ensures
        file_name@ == base_name@ + spec_lib_extension(os),
{
    let mut file_name = base_name.to_owned();
    file_name.append(get_lib_extension(os));
    file_name
}

} // verus!
