use vstd::prelude::*;
use crate::platform::{TargetOs, Platform};
use crate::path::{spec_join, spec_starts_at_root, spec_prefix, spec_is_verbatim, PrefixKind};
use crate::install::{
    EntryKind, spec_bin_dir, spec_tool_file_name, spec_tool_path, spec_tool_lookup, spec_lib_lookup,
    spec_python_dir_lookup, spec_c2rust_home, msg_home_not_set, msg_tool_not_found,
};
use crate::command::{
    Commands, ResourceKind, spec_tool_name, spec_tool_args, spec_feature_args, spec_flag_args,
    spec_attempts_args, spec_decimal, spec_digit, spec_env_requests,
};
use crate::platform::spec_lib_extension;
use crate::launch::{spec_env_vars, spec_env_warnings};

verus! {

/// The first argument a tool receives is the name of the subcommand, which
/// is also the name of the tool (`c2rust-<name>`) that is run.
pub proof fn lemma_first_arg_is_tool_name(cmd: Commands)
    ensures
        spec_tool_args(cmd).len() >= 1,
        spec_tool_args(cmd)[0] == spec_tool_name(cmd),
{
}

/// A feature given with `--feature <name>` is passed on right after the
/// subcommand's name, as `--feature` followed by the name.
pub proof fn lemma_feature_follows_name(cmd: Commands, feature: Seq<char>)
    requires
        match cmd {
            Commands::Init => false,
            Commands::Build { feature: f, .. } => f.deep_view() == Some(feature),
            Commands::Test { feature: f, .. } => f.deep_view() == Some(feature),
            Commands::Clean { feature: f, .. } => f.deep_view() == Some(feature),
            Commands::Translate { feature: f, .. } => f.deep_view() == Some(feature),
            Commands::Merge { feature: f, .. } => f.deep_view() == Some(feature),
        },
    ensures
        spec_tool_args(cmd).len() >= 3,
        spec_tool_args(cmd)[1] == "--feature"@,
        spec_tool_args(cmd)[2] == feature,
{
}

/// The command that the user gives to `build`, `test` and `clean` is passed
/// on unchanged, as the arguments after the last `--`; the extra arguments
/// of `merge` end its argument list unchanged.
pub proof fn lemma_user_command_forwarded(cmd: Commands)
    ensures
        match cmd {
            Commands::Build { build_cmd: user, .. } | Commands::Test { test_cmd: user, .. }
            | Commands::Clean { clean_cmd: user, .. } => {
                let args = spec_tool_args(cmd);
                let k = args.len() - user.deep_view().len();
                &&& k >= 2
                &&& args[k - 1] == "--"@
                &&& args.subrange(k, args.len() as int) == user.deep_view()
            },
            Commands::Merge { extra_args, .. } => {
                let args = spec_tool_args(cmd);
                let k = args.len() - extra_args.deep_view().len();
                &&& k >= 1
                &&& args.subrange(k, args.len() as int) == extra_args.deep_view()
            },
            _ => true,
        },
{
    match cmd {
        Commands::Build { feature, no_interactive, build_cmd } => {
            let user = build_cmd.deep_view();
            let head = seq!["build"@] + spec_feature_args(feature.deep_view())
                + spec_flag_args(no_interactive, "--no-interactive"@) + seq!["--"@];
            assert(spec_tool_args(cmd) == head + user);
            assert((head + user).subrange(head.len() as int, (head + user).len() as int) =~= user);
        },
        Commands::Test { feature, test_cmd } => {
            let user = test_cmd.deep_view();
            let head = seq!["test"@] + spec_feature_args(feature.deep_view()) + seq!["--"@];
            assert(spec_tool_args(cmd) == head + user);
            assert((head + user).subrange(head.len() as int, (head + user).len() as int) =~= user);
        },
        Commands::Clean { feature, clean_cmd } => {
            let user = clean_cmd.deep_view();
            let head = seq!["clean"@] + spec_feature_args(feature.deep_view()) + seq!["--"@];
            assert(spec_tool_args(cmd) == head + user);
            assert((head + user).subrange(head.len() as int, (head + user).len() as int) =~= user);
        },
        Commands::Merge { feature, extra_args } => {
            let user = extra_args.deep_view();
            let head = seq!["merge"@] + spec_feature_args(feature.deep_view());
            assert(spec_tool_args(cmd) == head + user);
            assert((head + user).subrange(head.len() as int, (head + user).len() as int) =~= user);
        },
        _ => {},
    }
}

/// A failed lookup of the installation is what every lookup that depends on
/// it reports, unchanged: that of a tool, of a library and of a Python
/// directory.
pub proof fn lemma_home_failure_propagates(
    platform: Platform,
    error: Seq<char>,
    name: Seq<char>,
    kind: EntryKind,
)
    ensures
        spec_tool_lookup(platform, Err(error), name, kind) == Err::<Seq<char>, Seq<char>>(error),
        spec_lib_lookup(platform.os, Err(error), name, kind) == Err::<Seq<char>, Seq<char>>(error),
        spec_python_dir_lookup(platform.os, Err(error), name, kind) == Err::<Seq<char>, Seq<char>>(error),
{
}

/// Without `C2RUST_HOME`, every tool run is abandoned with the message that
/// the variable is not set, whatever is on disk.
pub proof fn lemma_unset_home_stops_every_tool(
    platform: Platform,
    home_kind: EntryKind,
    tool_name: Seq<char>,
    tool_kind: EntryKind,
)
    ensures
        spec_tool_lookup(platform, spec_c2rust_home(None, home_kind), tool_name, tool_kind)
            == Err::<Seq<char>, Seq<char>>(msg_home_not_set()),
{
}

/// When `C2RUST_HOME` names a directory that lacks a tool, the run of that
/// tool is abandoned with `Tool 'c2rust-<name>' not found at path: ...`,
/// naming where it was looked for.
pub proof fn lemma_missing_tool_reported(
    platform: Platform,
    home: Seq<char>,
    tool_name: Seq<char>,
)
    ensures
        spec_tool_lookup(platform, spec_c2rust_home(Some(home), EntryKind::Directory), tool_name, EntryKind::Missing)
            == Err::<Seq<char>, Seq<char>>(msg_tool_not_found(
                spec_tool_file_name(platform, tool_name),
                spec_tool_path(platform, home, tool_name),
            )),
{
}

/// Joining a part that neither starts at a root nor (on Windows) has a
/// prefix keeps the base as a prefix and the part as a suffix, unless the
/// base is a Windows path with a verbatim prefix, which is rebuilt from its
/// components.
pub proof fn lemma_join_keeps_base_and_part(os: TargetOs, base: Seq<char>, part: Seq<char>)
    requires
        !spec_starts_at_root(os, part),
        os == TargetOs::Windows ==> spec_prefix(part).0 == PrefixKind::NoPrefix,
        os == TargetOs::Windows ==> !spec_is_verbatim(spec_prefix(base).0),
    ensures
        spec_join(os, base, part).len() >= base.len() + part.len(),
        spec_join(os, base, part).subrange(0, base.len() as int) == base,
        spec_join(os, base, part).subrange(
            spec_join(os, base, part).len() - part.len(),
            spec_join(os, base, part).len() as int,
        ) == part,
{
    let j = spec_join(os, base, part);
    assert(j.subrange(0, base.len() as int) =~= base);
    assert(j.subrange(j.len() - part.len(), j.len() as int) =~= part);
}

/// A tool that is found is a regular file in `$C2RUST_HOME/bin`, and its
/// path ends in `c2rust-<name>` with the executable suffix of the platform;
/// stated for bin directories without a Windows verbatim prefix, whose paths
/// are rebuilt when joined.
pub proof fn lemma_found_tool_location(
    platform: Platform,
    home: Seq<char>,
    tool_name: Seq<char>,
    kind: EntryKind,
)
    requires
        spec_tool_lookup(platform, Ok(home), tool_name, kind) is Ok,
        platform.os == TargetOs::Windows ==> !spec_is_verbatim(spec_prefix(spec_bin_dir(platform.os, home)).0),
    ensures
        ({
            let path = spec_tool_lookup(platform, Ok(home), tool_name, kind)->Ok_0;
            let file_name = spec_tool_file_name(platform, tool_name);
            &&& kind == EntryKind::File
            &&& path.len() >= spec_bin_dir(platform.os, home).len() + file_name.len()
            &&& path.subrange(0, spec_bin_dir(platform.os, home).len() as int) == spec_bin_dir(platform.os, home)
            &&& path.subrange(path.len() - file_name.len(), path.len() as int) == file_name
        }),
{
    let file_name = spec_tool_file_name(platform, tool_name);
    reveal_strlit("c2rust-");
    assert(file_name[0] == 'c');
    assert(file_name[1] == '2');
    lemma_join_keeps_base_and_part(platform.os, spec_bin_dir(platform.os, home), file_name);
}

/// Of the requests the user has not set, each gives either one variable or
/// one warning; the ones the user has set give neither.
pub proof fn lemma_env_request_accounted(
    reqs: Seq<(Seq<char>, ResourceKind, Seq<char>)>,
    provided: Seq<bool>,
    found: Seq<Result<Seq<char>, Seq<char>>>,
    n: nat,
)
    requires
        n <= reqs.len(),
        provided.len() == reqs.len(),
        found.len() == reqs.len(),
    ensures
        spec_env_vars(reqs, provided, found, n).len() + spec_env_warnings(provided, found, n).len()
            == provided.take(n as int).filter(|p: bool| !p).len(),
    decreases n,
{
    reveal(Seq::filter);
    if n > 0 {
        lemma_env_request_accounted(reqs, provided, found, (n - 1) as nat);
        assert(provided.take(n as int).drop_last() =~= provided.take(n - 1));
    } else {
        assert(provided.take(0) =~= Seq::<bool>::empty());
    }
}

/// A variable is only ever set for a request that the user has not set, to
/// the resource found for it: a value the user gave is never overridden.
pub proof fn lemma_env_vars_from_unset_requests(
    reqs: Seq<(Seq<char>, ResourceKind, Seq<char>)>,
    provided: Seq<bool>,
    found: Seq<Result<Seq<char>, Seq<char>>>,
    n: nat,
)
    requires
        n <= reqs.len(),
        provided.len() == reqs.len(),
        found.len() == reqs.len(),
    ensures
        forall|j: int| 0 <= j < spec_env_vars(reqs, provided, found, n).len() ==>
            exists|i: int| 0 <= i < n && !provided[i] && reqs[i].0 == #[trigger] spec_env_vars(reqs, provided, found, n)[j].0
                && found[i] == Ok::<Seq<char>, Seq<char>>(spec_env_vars(reqs, provided, found, n)[j].1),
    decreases n,
{
    if n > 0 {
        lemma_env_vars_from_unset_requests(reqs, provided, found, (n - 1) as nat);
        let earlier = spec_env_vars(reqs, provided, found, (n - 1) as nat);
        let vars = spec_env_vars(reqs, provided, found, n);
        assert forall|j: int| 0 <= j < vars.len() implies
            exists|i: int| 0 <= i < n && !provided[i] && reqs[i].0 == #[trigger] vars[j].0
                && found[i] == Ok::<Seq<char>, Seq<char>>(vars[j].1) by {
            if j < earlier.len() {
                assert(vars[j] == earlier[j]);
                let i = choose|i: int| 0 <= i < n - 1 && !provided[i] && reqs[i].0 == #[trigger] earlier[j].0
                    && found[i] == Ok::<Seq<char>, Seq<char>>(earlier[j].1);
                assert(0 <= i < n);
            } else {
                let i = n - 1;
                assert(!provided[i] && found[i] is Ok);
                assert(found[i] == Ok::<Seq<char>, Seq<char>>(found[i]->Ok_0));
            }
        }
    }
}

/// Every request the user has not set and whose resource was found is set,
/// to that resource.
pub proof fn lemma_env_vars_complete(
    reqs: Seq<(Seq<char>, ResourceKind, Seq<char>)>,
    provided: Seq<bool>,
    found: Seq<Result<Seq<char>, Seq<char>>>,
    n: nat,
)
    requires
        n <= reqs.len(),
        provided.len() == reqs.len(),
        found.len() == reqs.len(),
    ensures
        forall|i: int| 0 <= i < n && !provided[i] && #[trigger] found[i] is Ok ==>
            spec_env_vars(reqs, provided, found, n).contains((reqs[i].0, found[i]->Ok_0)),
    decreases n,
{
    if n > 0 {
        lemma_env_vars_complete(reqs, provided, found, (n - 1) as nat);
        let earlier = spec_env_vars(reqs, provided, found, (n - 1) as nat);
        let vars = spec_env_vars(reqs, provided, found, n);
        assert forall|i: int| 0 <= i < n && !provided[i] && #[trigger] found[i] is Ok implies
            vars.contains((reqs[i].0, found[i]->Ok_0)) by {
            if i < n - 1 {
                let j = choose|j: int| 0 <= j < earlier.len() && earlier[j] == (reqs[i].0, found[i]->Ok_0);
                if vars != earlier {
                    assert(vars == earlier.push((reqs[n - 1].0, found[n - 1]->Ok_0)));
                    assert(vars[j] == earlier[j]);
                }
                assert(vars[j] == (reqs[i].0, found[i]->Ok_0));
            } else {
                assert(vars == earlier.push((reqs[i].0, found[i]->Ok_0)));
                assert(vars[earlier.len() as int] == (reqs[i].0, found[i]->Ok_0));
            }
        }
    }
}

/// Every warning is the reason why the resource of a request the user has
/// not set was not found, and every such reason is a warning.
pub proof fn lemma_env_warnings_exact(
    reqs: Seq<(Seq<char>, ResourceKind, Seq<char>)>,
    provided: Seq<bool>,
    found: Seq<Result<Seq<char>, Seq<char>>>,
    n: nat,
)
    requires
        n <= reqs.len(),
        provided.len() == reqs.len(),
        found.len() == reqs.len(),
    ensures
        forall|j: int| 0 <= j < spec_env_warnings(provided, found, n).len() ==>
            exists|i: int| 0 <= i < n && !provided[i]
                && found[i] == Err::<Seq<char>, Seq<char>>(#[trigger] spec_env_warnings(provided, found, n)[j]),
        forall|i: int| 0 <= i < n && !provided[i] && #[trigger] found[i] is Err ==>
            spec_env_warnings(provided, found, n).contains(found[i]->Err_0),
    decreases n,
{
    if n > 0 {
        lemma_env_warnings_exact(reqs, provided, found, (n - 1) as nat);
        let earlier = spec_env_warnings(provided, found, (n - 1) as nat);
        let ws = spec_env_warnings(provided, found, n);
        let last = n - 1;
        assert(ws == earlier || (ws == earlier.push(found[last]->Err_0) && !provided[last] && found[last] is Err));
        assert forall|j: int| 0 <= j < ws.len() implies
            exists|i: int| 0 <= i < n && !provided[i] && found[i] == Err::<Seq<char>, Seq<char>>(#[trigger] ws[j]) by {
            if j < earlier.len() {
                assert(ws[j] == earlier[j]);
                let i = choose|i: int| 0 <= i < n - 1 && !provided[i]
                    && found[i] == Err::<Seq<char>, Seq<char>>(#[trigger] earlier[j]);
                assert(0 <= i < n);
            } else {
                assert(found[last] == Err::<Seq<char>, Seq<char>>(found[last]->Err_0));
                assert(ws[j] == found[last]->Err_0);
            }
        }
        assert forall|i: int| 0 <= i < n && !provided[i] && #[trigger] found[i] is Err implies
            ws.contains(found[i]->Err_0) by {
            if i < n - 1 {
                let j = choose|j: int| 0 <= j < earlier.len() && earlier[j] == found[i]->Err_0;
                assert(ws[j] == earlier[j]);
            } else {
                assert(ws[earlier.len() as int] == found[i]->Err_0);
            }
        }
    }
}

/// An element lies in a concatenation exactly when it lies in one of its
/// two parts.
proof fn lemma_contains_concat<A>(a: Seq<A>, b: Seq<A>, x: A)
    ensures
        (a + b).contains(x) <==> (a.contains(x) || b.contains(x)),
{
    if (a + b).contains(x) {
        let k = choose|k: int| 0 <= k < (a + b).len() && (a + b)[k] == x;
        if k < a.len() {
            assert(a[k] == x);
        } else {
            assert(b[k - a.len()] == x);
        }
    }
    if a.contains(x) {
        let k = choose|k: int| 0 <= k < a.len() && a[k] == x;
        assert((a + b)[k] == x);
    }
    if b.contains(x) {
        let k = choose|k: int| 0 <= k < b.len() && b[k] == x;
        assert((a + b)[k + a.len()] == x);
    }
}

/// Where a flag of `translate` can stand among the parts of its arguments.
proof fn lemma_translate_parts(
    feature: Option<String>,
    allow_all: bool,
    max_fix_attempts: Option<usize>,
    show_full_output: bool,
    x: Seq<char>,
)
    requires
        is_translate_flag(x),
        feature.deep_view() matches Some(f) ==> !is_translate_flag(f),
    ensures
        !seq!["translate"@].contains(x),
        !spec_feature_args(feature.deep_view()).contains(x),
        spec_flag_args(allow_all, "--allow-all"@).contains(x) <==> (allow_all && x == "--allow-all"@),
        spec_attempts_args(max_fix_attempts).contains(x) <==> (max_fix_attempts is Some && x == "--max-fix-attempts"@),
        spec_flag_args(show_full_output, "--show-full-output"@).contains(x) <==> (show_full_output
            && x == "--show-full-output"@),
{
    reveal_strlit("translate");
    reveal_strlit("--feature");
    reveal_strlit("--allow-all");
    reveal_strlit("--max-fix-attempts");
    reveal_strlit("--show-full-output");
    assert(x[0] == '-');
    assert(x.len() > 9);
    let a = seq!["translate"@];
    if a.contains(x) {
        assert(a[0] == x);
        assert("translate"@[0] == 't');
    }
    let f = spec_feature_args(feature.deep_view());
    if f.contains(x) {
        let k = choose|k: int| 0 <= k < f.len() && f[k] == x;
        if k == 0 {
            assert(f[0] == "--feature"@);
            assert("--feature"@.len() == 9);
        }
    }
    let aa = spec_flag_args(allow_all, "--allow-all"@);
    if aa.contains(x) { assert(aa[0] == x); }
    if allow_all && x == "--allow-all"@ { assert(aa[0] == x); }
    let m = spec_attempts_args(max_fix_attempts);
    if let Some(n) = max_fix_attempts {
        lemma_decimal_reads_back(n as nat);
        assert('0' <= spec_decimal(n as nat)[0] <= '9');
        if m.contains(x) {
            let k = choose|k: int| 0 <= k < m.len() && m[k] == x;
            if k == 1 {
                assert(m[1] == spec_decimal(n as nat));
            }
        }
        if x == "--max-fix-attempts"@ { assert(m[0] == x); }
    }
    let so = spec_flag_args(show_full_output, "--show-full-output"@);
    if so.contains(x) { assert(so[0] == x); }
    if show_full_output && x == "--show-full-output"@ { assert(so[0] == x); }
}

/// The options of `translate` that are flags.
pub open spec fn is_translate_flag(t: Seq<char>) -> bool {
    t == "--allow-all"@ || t == "--max-fix-attempts"@ || t == "--show-full-output"@
}

/// Each option of `translate` reaches the tool exactly when it is given, and
/// independently of the others: `--allow-all` when `allow_all`,
/// `--max-fix-attempts` when a limit is given, `--show-full-output` when
/// `show_full_output` (the feature's name not being one of these flags).
pub proof fn lemma_translate_flags_independent(cmd: Commands)
    requires
        cmd matches Commands::Translate { feature, .. } && (feature.deep_view() matches Some(f) ==> !is_translate_flag(f)),
    ensures
        cmd matches Commands::Translate { allow_all, max_fix_attempts, show_full_output, .. } && {
            let args = spec_tool_args(cmd);
            &&& args.contains("--allow-all"@) <==> allow_all
            &&& args.contains("--max-fix-attempts"@) <==> max_fix_attempts is Some
            &&& args.contains("--show-full-output"@) <==> show_full_output
        },
{
    reveal_strlit("translate");
    reveal_strlit("--feature");
    reveal_strlit("--allow-all");
    reveal_strlit("--max-fix-attempts");
    reveal_strlit("--show-full-output");
    match cmd {
        Commands::Translate { feature, allow_all, max_fix_attempts, show_full_output } => {
            let a = seq!["translate"@];
            let f = spec_feature_args(feature.deep_view());
            let aa = spec_flag_args(allow_all, "--allow-all"@);
            let m = spec_attempts_args(max_fix_attempts);
            let so = spec_flag_args(show_full_output, "--show-full-output"@);
            assert(spec_tool_args(cmd) == a + f + aa + m + so);
            assert forall|x: Seq<char>| is_translate_flag(x) implies {
                &&& !a.contains(x)
                &&& !f.contains(x)
                &&& aa.contains(x) <==> (allow_all && x == "--allow-all"@)
                &&& m.contains(x) <==> (max_fix_attempts is Some && x == "--max-fix-attempts"@)
                &&& so.contains(x) <==> (show_full_output && x == "--show-full-output"@)
            } by {
                lemma_translate_parts(feature, allow_all, max_fix_attempts, show_full_output, x);
            }
            assert forall|x: Seq<char>| is_translate_flag(x) implies
                (spec_tool_args(cmd).contains(x) <==> (aa.contains(x) || m.contains(x) || so.contains(x))) by {
                lemma_contains_concat(a, f, x);
                lemma_contains_concat(a + f, aa, x);
                lemma_contains_concat(a + f + aa, m, x);
                lemma_contains_concat(a + f + aa + m, so, x);
            }
            assert(is_translate_flag("--allow-all"@));
            assert(is_translate_flag("--max-fix-attempts"@));
            assert(is_translate_flag("--show-full-output"@));
            assert("--allow-all"@.len() == 11);
            assert("--max-fix-attempts"@.len() == 18);
            assert("--show-full-output"@.len() == 18);
            assert("--max-fix-attempts"@[2] != "--show-full-output"@[2]);
            assert("--allow-all"@ != "--max-fix-attempts"@);
            assert("--allow-all"@ != "--show-full-output"@);
            assert("--max-fix-attempts"@ != "--show-full-output"@);
        },
        _ => {},
    }
}

/// The file extension of a dynamic library: `.dylib` on macOS, `.dll` on
/// Windows, `.so` elsewhere.
pub open spec fn library_extension_of(os: TargetOs) -> Seq<char> {
    if os == TargetOs::MacOs { ".dylib"@ } else if os == TargetOs::Windows { ".dll"@ } else { ".so"@ }
}

/// Every library a tool is pointed to carries the library extension of the
/// target platform (the hook library is `libhook.dylib` on macOS and
/// `libhook.dll` on Windows), the one `get_lib_extension` gives.
pub proof fn lemma_requested_libraries_use_platform_extension(os: TargetOs, cmd: Commands)
    ensures
        spec_lib_extension(os) == library_extension_of(os),
        forall|i: int| 0 <= i < spec_env_requests(os, cmd).len()
            && (#[trigger] spec_env_requests(os, cmd)[i]).1 == ResourceKind::Library ==> {
            let name = spec_env_requests(os, cmd)[i].2;
            let ext = library_extension_of(os);
            &&& name.len() > ext.len()
            &&& name.subrange(name.len() - ext.len(), name.len() as int) == ext
        },
{
    let ext = library_extension_of(os);
    reveal_strlit("libhook");
    reveal_strlit("libc2rust-hybrid-build");
    let hook = "libhook"@ + ext;
    let hybrid = "libc2rust-hybrid-build"@ + ext;
    assert(hook.subrange(hook.len() - ext.len(), hook.len() as int) =~= ext);
    assert(hybrid.subrange(hybrid.len() - ext.len(), hybrid.len() as int) =~= ext);
}

/// The value of a string of decimal digits.
pub open spec fn spec_digits_value(s: Seq<char>) -> int
    decreases s.len(),
{
    if s.len() == 0 {
        0
    } else {
        10 * spec_digits_value(s.drop_last()) + (s.last() as int - '0' as int)
    }
}

/// The decimal notation of a count reads back as that count, and it has a
/// leading zero only when the count is zero.
pub proof fn lemma_decimal_reads_back(n: nat)
    ensures
        spec_digits_value(spec_decimal(n)) == n,
        spec_decimal(n).len() >= 1,
        spec_decimal(n)[0] == '0' ==> n == 0,
        forall|i: int| 0 <= i < spec_decimal(n).len() ==> '0' <= #[trigger] spec_decimal(n)[i] <= '9',
    decreases n,
{
    if n >= 10 {
        lemma_decimal_reads_back(n / 10);
        let s = spec_decimal(n);
        assert(s.drop_last() =~= spec_decimal(n / 10));
        assert(s[0] == spec_decimal(n / 10)[0]);
        let d = n % 10;
        assert(s.last() == spec_digit(d));
        assert(spec_digit(d) as int - '0' as int == d);
        assert(10 * (n / 10) + d == n);
        assert(spec_digits_value(s) == 10 * spec_digits_value(s.drop_last()) + (s.last() as int - '0' as int));
        assert(spec_digits_value(s.drop_last()) == n / 10);
    } else {
        assert(spec_digit(n) as int - '0' as int == n);
        assert(spec_decimal(n).drop_last() =~= Seq::<char>::empty());
        assert(spec_digits_value(Seq::<char>::empty()) == 0);
        assert(spec_digits_value(spec_decimal(n)) == n);
    }
}

} // verus!
