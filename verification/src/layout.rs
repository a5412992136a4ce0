use vstd::prelude::*;
use crate::platform::{TargetOs, Platform};
use crate::path::{spec_join, spec_prefix, spec_is_verbatim, spec_is_separator, PrefixKind};
use crate::install::{spec_bin_dir, spec_tool_file_name, spec_tool_path, spec_lib_path, spec_python_dir};

verus! {

/// The separator written between components on `os`.
pub open spec fn separator_of(os: TargetOs) -> Seq<char> {
    if os == TargetOs::Windows { seq!['\\'] } else { seq!['/'] }
}

/// An installation directory whose path joins plainly: it is not empty,
/// does not end in a separator and, on Windows, is neither a bare drive
/// (`C:`) nor a verbatim path (`\\?\...`), which joining rebuilds.
pub open spec fn plain_dir(os: TargetOs, dir: Seq<char>) -> bool {
    &&& dir.len() > 0
    &&& !spec_is_separator(os, dir.last())
    &&& os == TargetOs::Windows ==> !spec_is_verbatim(spec_prefix(dir).0)
    &&& os == TargetOs::Windows ==> !(spec_prefix(dir).0 == PrefixKind::Disk && dir.len() == 2)
}

/// A name that joins plainly: it does not start with a separator and, on
/// Windows, carries no prefix (which would replace the directory).
pub open spec fn plain_name(os: TargetOs, name: Seq<char>) -> bool {
    &&& !(name.len() > 0 && spec_is_separator(os, name[0]))
    &&& os == TargetOs::Windows ==> spec_prefix(name).0 == PrefixKind::NoPrefix
}

/// A plain name joined onto a plain directory is the directory, one
/// separator of the platform, and the name.
pub proof fn lemma_join_plain(os: TargetOs, dir: Seq<char>, name: Seq<char>)
    requires
        plain_dir(os, dir),
        plain_name(os, name),
    ensures
        spec_join(os, dir, name) == dir + separator_of(os) + name,
{
    if os == TargetOs::Windows {
        let (k, l) = spec_prefix(dir);
        assert(k == PrefixKind::Disk ==> l == 2);
    }
}

/// `bin`, `lib` and `python` are plain names on every platform.
proof fn lemma_subdir_names_plain(os: TargetOs)
    ensures
        plain_name(os, "bin"@),
        plain_name(os, "lib"@),
        plain_name(os, "python"@),
{
    reveal_strlit("bin");
    reveal_strlit("lib");
    reveal_strlit("python");
}

/// A subdirectory of a plain directory is plain, as long as it is not a
/// verbatim path on Windows.
proof fn lemma_subdir_plain(os: TargetOs, dir: Seq<char>, name: Seq<char>)
    requires
        plain_dir(os, dir),
        name.len() > 0,
        !spec_is_separator(os, name.last()),
        os == TargetOs::Windows ==> !spec_is_verbatim(spec_prefix(dir + separator_of(os) + name).0),
    ensures
        plain_dir(os, dir + separator_of(os) + name),
{
    let d = dir + separator_of(os) + name;
    assert(d.last() == name.last());
    if os == TargetOs::Windows {
        let (k, l) = spec_prefix(d);
        assert(k == PrefixKind::Disk ==> l == 2);
    }
}

/// The tools of an installation lie in its `bin` directory on every
/// platform: `$C2RUST_HOME/bin`, with the platform's separator.
pub proof fn lemma_bin_dir_layout(os: TargetOs, home: Seq<char>)
    requires
        plain_dir(os, home),
    ensures
        spec_bin_dir(os, home) == home + separator_of(os) + "bin"@,
        spec_bin_dir(os, home).len() == home.len() + 4,
{
    lemma_subdir_names_plain(os);
    lemma_join_plain(os, home, "bin"@);
    reveal_strlit("bin");
}

/// On every platform the tool for `name` is looked for at
/// `$C2RUST_HOME/bin/c2rust-<name><suffix>`, with the platform's separator
/// and executable suffix.
pub proof fn lemma_tool_path_layout(platform: Platform, home: Seq<char>, name: Seq<char>)
    requires
        plain_dir(platform.os, home),
        platform.os == TargetOs::Windows ==> !spec_is_verbatim(
            spec_prefix(home + separator_of(platform.os) + "bin"@).0,
        ),
    ensures
        spec_tool_path(platform, home, name) == home + separator_of(platform.os) + "bin"@
            + separator_of(platform.os) + "c2rust-"@ + name + platform.exe_suffix@,
{
    let os = platform.os;
    reveal_strlit("bin");
    reveal_strlit("c2rust-");
    lemma_bin_dir_layout(os, home);
    let bin = home + separator_of(os) + "bin"@;
    lemma_subdir_plain(os, home, "bin"@);
    let file = spec_tool_file_name(platform, name);
    assert(file[0] == 'c' && file[1] == '2');
    assert(plain_name(os, file));
    lemma_join_plain(os, bin, file);
    assert(spec_tool_path(platform, home, name) =~= home + separator_of(os) + "bin"@ + separator_of(os) + "c2rust-"@
        + name + platform.exe_suffix@);
}

/// On every platform a library is looked for directly in the `lib`
/// directory of the installation: `$C2RUST_HOME/lib/<lib_name>`.
pub proof fn lemma_lib_path_layout(os: TargetOs, home: Seq<char>, lib_name: Seq<char>)
    requires
        plain_dir(os, home),
        plain_name(os, lib_name),
        os == TargetOs::Windows ==> !spec_is_verbatim(spec_prefix(home + separator_of(os) + "lib"@).0),
    ensures
        spec_lib_path(os, home, lib_name) == home + separator_of(os) + "lib"@ + separator_of(os) + lib_name,
{
    reveal_strlit("lib");
    lemma_subdir_names_plain(os);
    lemma_join_plain(os, home, "lib"@);
    lemma_subdir_plain(os, home, "lib"@);
    lemma_join_plain(os, home + separator_of(os) + "lib"@, lib_name);
}

/// On every platform a Python directory is looked for directly in the
/// `python` directory of the installation: `$C2RUST_HOME/python/<dir_name>`.
pub proof fn lemma_python_dir_layout(os: TargetOs, home: Seq<char>, dir_name: Seq<char>)
    requires
        plain_dir(os, home),
        plain_name(os, dir_name),
        os == TargetOs::Windows ==> !spec_is_verbatim(spec_prefix(home + separator_of(os) + "python"@).0),
    ensures
        spec_python_dir(os, home, dir_name) == home + separator_of(os) + "python"@ + separator_of(os) + dir_name,
{
    reveal_strlit("python");
    lemma_subdir_names_plain(os);
    lemma_join_plain(os, home, "python"@);
    lemma_subdir_plain(os, home, "python"@);
    lemma_join_plain(os, home + separator_of(os) + "python"@, dir_name);
}

} // verus!
