use vstd::prelude::*;
use vstd::string::*;
use crate::platform::TargetOs;

verus! {

// ---------------------------------------------------------------------------
// Separators

/// Whether `c` separates path components on `os`: `/` everywhere, and `\`
/// on Windows as well.
pub open spec fn spec_is_separator(os: TargetOs, c: char) -> bool {
    c == '/' || (os == TargetOs::Windows && c == '\\')
}

/// The separator that joining inserts on `os`.
pub open spec fn spec_main_separator(os: TargetOs) -> char {
    if os == TargetOs::Windows { '\\' } else { '/' }
}

/// Whether `part` starts at a root (a separator).
pub open spec fn spec_starts_at_root(os: TargetOs, part: Seq<char>) -> bool {
    part.len() > 0 && spec_is_separator(os, part[0])
}

/// The characters that end a component of a Windows path: only `\` in a
/// path with a verbatim prefix, `\` and `/` otherwise.
pub open spec fn spec_is_component_end(c: char, verbatim: bool) -> bool {
    if verbatim { c == '\\' } else { c == '\\' || c == '/' }
}

/// The position of the first component end at or after `i` (the length of
/// `s` when there is none).
pub open spec fn spec_next_sep(s: Seq<char>, i: int, verbatim: bool) -> int
    decreases s.len() - i,
{
    if i < 0 || i >= s.len() {
        s.len() as int
    } else if spec_is_component_end(s[i], verbatim) {
        i
    } else {
        spec_next_sep(s, i + 1, verbatim)
    }
}

// ---------------------------------------------------------------------------
// Windows prefixes

/// The kinds of prefix a Windows path can start with.
#[derive(Clone, Copy, Debug, PartialEq, Eq, Structural)]
pub enum PrefixKind {
    /// No prefix.
    NoPrefix,
    /// A drive, `C:`.
    Disk,
    /// A network share, `\\server\share`.
    Unc,
    /// A device, `\\.\COM1`.
    DeviceNs,
    /// A verbatim prefix, `\\?\name`.
    Verbatim,
    /// A verbatim network share, `\\?\UNC\server\share`.
    VerbatimUnc,
    /// A verbatim drive, `\\?\C:` followed by `\`.
    VerbatimDisk,
}

/// Whether `c` is an ASCII letter, as a drive letter must be.
pub open spec fn spec_is_ascii_letter(c: char) -> bool {
    ('a' <= c && c <= 'z') || ('A' <= c && c <= 'Z')
}

/// `s[i]`, with `/` read as `\`, as prefixes are recognised.
pub open spec fn spec_prefix_char(s: Seq<char>, i: int) -> char {
    if s[i] == '/' { '\\' } else { s[i] }
}

/// Where the component that starts at `i` ends and the next one starts.
pub open spec fn spec_after_component(s: Seq<char>, i: int, verbatim: bool) -> int {
    let e = spec_next_sep(s, i, verbatim);
    if e < s.len() { e + 1 } else { s.len() as int }
}

/// The end of the two components `server` and `share` that start at `i`,
/// and whether both are non-empty.
pub open spec fn spec_two_components(s: Seq<char>, i: int, verbatim: bool) -> (int, bool) {
    let server_end = spec_next_sep(s, i, verbatim);
    let share_start = spec_after_component(s, i, verbatim);
    let share_end = spec_next_sep(s, share_start, verbatim);
    let end = if share_end > share_start { share_end } else { server_end };
    (end, server_end > i && share_end > share_start)
}

/// The prefix that the Windows path `s` starts with, and its length.
pub open spec fn spec_prefix(s: Seq<char>) -> (PrefixKind, int) {
    if s.len() >= 2 && spec_prefix_char(s, 0) == '\\' && spec_prefix_char(s, 1) == '\\' {
        if s.len() >= 4 && s[0] == '\\' && s[1] == '\\' && s[2] == '?' && s[3] == '\\' {
            if s.len() >= 8 && s[4] == 'U' && s[5] == 'N' && s[6] == 'C' && spec_prefix_char(s, 7) == '\\' {
                (PrefixKind::VerbatimUnc, spec_two_components(s, 8, true).0)
            } else if s.len() >= 7 && spec_is_ascii_letter(s[4]) && s[5] == ':' && s[6] == '\\' {
                (PrefixKind::VerbatimDisk, 6)
            } else {
                (PrefixKind::Verbatim, spec_next_sep(s, 4, true))
            }
        } else if s.len() >= 4 && spec_prefix_char(s, 2) == '.' && spec_prefix_char(s, 3) == '\\' {
            (PrefixKind::DeviceNs, spec_next_sep(s, 4, false))
        } else if spec_two_components(s, 2, false).1 {
            (PrefixKind::Unc, spec_two_components(s, 2, false).0)
        } else {
            (PrefixKind::NoPrefix, 0)
        }
    } else if s.len() >= 2 && spec_is_ascii_letter(s[0]) && s[1] == ':' {
        (PrefixKind::Disk, 2)
    } else {
        (PrefixKind::NoPrefix, 0)
    }
}

pub open spec fn spec_is_verbatim(k: PrefixKind) -> bool {
    k == PrefixKind::Verbatim || k == PrefixKind::VerbatimUnc || k == PrefixKind::VerbatimDisk
}

pub open spec fn spec_is_drive(k: PrefixKind) -> bool {
    k == PrefixKind::Disk || k == PrefixKind::VerbatimDisk
}

// ---------------------------------------------------------------------------
// Components

/// Whether a component text names a normal component (not `.` or `..`).
pub open spec fn spec_is_normal(t: Seq<char>) -> bool {
    t != seq!['.'] && t != seq!['.', '.']
}

/// Whether a component text is kept: empty ones never are, and `.` is
/// dropped outside verbatim paths.
pub open spec fn spec_keep_component(t: Seq<char>, verbatim: bool) -> bool {
    t.len() > 0 && (verbatim || t != seq!['.'])
}

/// `spec_next_sep` does not go back, nor past the end.
pub proof fn lemma_next_sep_bounds(s: Seq<char>, i: int, verbatim: bool)
    requires
        0 <= i <= s.len(),
    ensures
        i <= spec_next_sep(s, i, verbatim) <= s.len(),
    decreases s.len() - i,
{
    if i < s.len() && !spec_is_component_end(s[i], verbatim) {
        lemma_next_sep_bounds(s, i + 1, verbatim);
    }
}

/// The components of `s` from position `i` on, as texts.
pub open spec fn spec_components(s: Seq<char>, i: int, verbatim: bool) -> Seq<Seq<char>>
    decreases s.len() - i,
{
    if i < 0 || i >= s.len() {
        Seq::empty()
    } else {
        proof {
            lemma_next_sep_bounds(s, i, verbatim);
        }
        let e = spec_next_sep(s, i, verbatim);
        let t = s.subrange(i, e);
        let rest = spec_components(s, if e < s.len() { e + 1 } else { s.len() as int }, verbatim);
        if spec_keep_component(t, verbatim) { seq![t] + rest } else { rest }
    }
}

/// The components `items` after the component `t` of a pushed path: `..`
/// removes a last normal component (and is dropped otherwise), anything
/// else is added.
pub open spec fn spec_apply_component(items: Seq<Seq<char>>, t: Seq<char>) -> Seq<Seq<char>> {
    if t == seq!['.', '.'] {
        if items.len() > 0 && spec_is_normal(items.last()) { items.drop_last() } else { items }
    } else {
        items.push(t)
    }
}

/// `items` after all the components `ts`, in order.
pub open spec fn spec_apply_components(items: Seq<Seq<char>>, ts: Seq<Seq<char>>) -> Seq<Seq<char>>
    decreases ts.len(),
{
    if ts.len() == 0 {
        items
    } else {
        spec_apply_component(spec_apply_components(items, ts.drop_last()), ts.last())
    }
}

/// Component texts joined by `\`.
pub open spec fn spec_join_components(items: Seq<Seq<char>>) -> Seq<char>
    decreases items.len(),
{
    if items.len() == 0 {
        Seq::empty()
    } else if items.len() == 1 {
        items[0]
    } else {
        spec_join_components(items.drop_last()) + seq!['\\'] + items.last()
    }
}

/// A Windows path written from its prefix, whether it has a root, and its
/// components.
pub open spec fn spec_render(prefix: Seq<char>, drive: bool, root: bool, items: Seq<Seq<char>>) -> Seq<char> {
    prefix + (if root || (items.len() > 0 && !drive) { seq!['\\'] } else { Seq::empty() })
        + spec_join_components(items)
}

/// `part` (which has no prefix and is not empty) pushed onto `base`, which
/// has a verbatim prefix of kind `kind` and length `len`: the result is
/// rebuilt from the components, `.` and `..` of `part` being resolved.
pub open spec fn spec_join_verbatim(base: Seq<char>, kind: PrefixKind, len: int, part: Seq<char>) -> Seq<char> {
    let base_root = len < base.len() && (base[len] == '\\' || base[len] == '/');
    let part_root = part[0] == '\\' || part[0] == '/';
    let start = if base_root { len + 1 } else { len };
    let items = if part_root { Seq::empty() } else { spec_components(base, start, true) };
    spec_render(
        base.subrange(0, len),
        spec_is_drive(kind),
        base_root || part_root,
        spec_apply_components(items, spec_components(part, 0, false)),
    )
}

// ---------------------------------------------------------------------------
// Joining

/// `part` adjoined to `base` on Windows:
/// - a part with a prefix replaces the base;
/// - onto a base with a verbatim prefix, a non-empty part is pushed
///   component by component (see [`spec_join_verbatim`]);
/// - a part that starts at a root replaces all of the base but its prefix;
/// - otherwise the part follows the base, with `\` between them unless the
///   base is empty, ends in a separator or is a bare drive (`C:`).
pub open spec fn spec_join_windows(base: Seq<char>, part: Seq<char>) -> Seq<char> {
    let (bk, bl) = spec_prefix(base);
    if spec_prefix(part).0 != PrefixKind::NoPrefix {
        part
    } else if spec_is_verbatim(bk) && part.len() > 0 {
        spec_join_verbatim(base, bk, bl, part)
    } else if spec_starts_at_root(TargetOs::Windows, part) {
        base.subrange(0, bl) + part
    } else if base.len() == 0 || spec_is_separator(TargetOs::Windows, base.last())
        || (spec_is_drive(bk) && bl == base.len()) {
        base + part
    } else {
        base + seq!['\\'] + part
    }
}

/// `part` adjoined to `base` elsewhere: a part that starts at `/` replaces
/// the base; otherwise the part follows the base, with `/` between them
/// unless the base is empty or already ends in `/`.
pub open spec fn spec_join_unix(base: Seq<char>, part: Seq<char>) -> Seq<char> {
    if part.len() > 0 && part[0] == '/' {
        part
    } else if base.len() == 0 || base.last() == '/' {
        base + part
    } else {
        base + seq!['/'] + part
    }
}

/// `part` adjoined to `base` on `os`, as a path is extended by a component.
pub open spec fn spec_join(os: TargetOs, base: Seq<char>, part: Seq<char>) -> Seq<char> {
    if os == TargetOs::Windows { spec_join_windows(base, part) } else { spec_join_unix(base, part) }
}

// ---------------------------------------------------------------------------
// Executable code

/// The characters of `s`.
fn to_chars(s: &str) -> (chars: Vec<char>)
    ensures
        chars@ == s@,
{
    let n = s.unicode_len();
    let mut chars: Vec<char> = Vec::new();
    let mut i: usize = 0;
    while i < n
        invariant
            n == s@.len(),
            i <= n,
            chars@ == s@.subrange(0, i as int),
        decreases n - i,
    {
        chars.push(s.get_char(i));
        i = i + 1;
        assert(chars@ =~= s@.subrange(0, i as int));
    }
    assert(chars@ =~= s@);
    chars
}

fn is_component_end(c: char, verbatim: bool) -> (b: bool)
    ensures
        b == spec_is_component_end(c, verbatim),
{
    if verbatim { c == '\\' } else { c == '\\' || c == '/' }
}

fn next_sep(s: &Vec<char>, i: usize, verbatim: bool) -> (e: usize)
    requires
        i <= s.len(),
    ensures
        e as int == spec_next_sep(s@, i as int, verbatim),
        i <= e <= s.len(),
{
    let mut j = i;
    while j < s.len()
        invariant
            i <= j <= s.len(),
            spec_next_sep(s@, i as int, verbatim) == spec_next_sep(s@, j as int, verbatim),
        decreases s.len() - j,
    {
        if is_component_end(s[j], verbatim) {
            return j;
        }
        j = j + 1;
    }
    j
}

fn is_ascii_letter(c: char) -> (b: bool)
    ensures
        b == spec_is_ascii_letter(c),
{
    ('a' <= c && c <= 'z') || ('A' <= c && c <= 'Z')
}

fn prefix_char(s: &Vec<char>, i: usize) -> (c: char)
    requires
        i < s.len(),
    ensures
        c == spec_prefix_char(s@, i as int),
{
    if s[i] == '/' { '\\' } else { s[i] }
}

fn after_component(s: &Vec<char>, i: usize, verbatim: bool) -> (a: usize)
    requires
        i <= s.len(),
    ensures
        a as int == spec_after_component(s@, i as int, verbatim),
        a <= s.len(),
{
    let e = next_sep(s, i, verbatim);
    if e < s.len() { e + 1 } else { s.len() }
}

fn two_components(s: &Vec<char>, i: usize, verbatim: bool) -> (r: (usize, bool))
    requires
        i <= s.len(),
    ensures
        (r.0 as int, r.1) == spec_two_components(s@, i as int, verbatim),
        r.0 <= s.len(),
{
    let server_end = next_sep(s, i, verbatim);
    let share_start = after_component(s, i, verbatim);
    let share_end = next_sep(s, share_start, verbatim);
    let end = if share_end > share_start { share_end } else { server_end };
    (end, server_end > i && share_end > share_start)
}

fn prefix(s: &Vec<char>) -> (r: (PrefixKind, usize))
    ensures
        (r.0, r.1 as int) == spec_prefix(s@),
        r.1 <= s.len(),
{
    let n = s.len();
    if n >= 2 && prefix_char(s, 0) == '\\' && prefix_char(s, 1) == '\\' {
        if n >= 4 && s[0] == '\\' && s[1] == '\\' && s[2] == '?' && s[3] == '\\' {
            if n >= 8 && s[4] == 'U' && s[5] == 'N' && s[6] == 'C' && prefix_char(s, 7) == '\\' {
                (PrefixKind::VerbatimUnc, two_components(s, 8, true).0)
            } else if n >= 7 && is_ascii_letter(s[4]) && s[5] == ':' && s[6] == '\\' {
                (PrefixKind::VerbatimDisk, 6)
            } else {
                (PrefixKind::Verbatim, next_sep(s, 4, true))
            }
        } else if n >= 4 && prefix_char(s, 2) == '.' && prefix_char(s, 3) == '\\' {
            (PrefixKind::DeviceNs, next_sep(s, 4, false))
        } else {
            let (end, both) = two_components(s, 2, false);
            if both { (PrefixKind::Unc, end) } else { (PrefixKind::NoPrefix, 0) }
        }
    } else if n >= 2 && is_ascii_letter(s[0]) && s[1] == ':' {
        (PrefixKind::Disk, 2)
    } else {
        (PrefixKind::NoPrefix, 0)
    }
}

/// The texts of a list of string slices.
pub open spec fn texts(v: Seq<&str>) -> Seq<Seq<char>> {
    v.map_values(|t: &str| t@)
}

fn keep_component(chars: &Vec<char>, i: usize, e: usize, verbatim: bool) -> (b: bool)
    requires
        i <= e <= chars.len(),
    ensures
        b == spec_keep_component(chars@.subrange(i as int, e as int), verbatim),
{
    let t = Ghost(chars@.subrange(i as int, e as int));
    if e - i == 1 && chars[i] == '.' {
        assert(t@ =~= seq!['.']);
        verbatim
    } else {
        assert(t@.len() == 1 ==> t@[0] != '.');
        assert(t@ != seq!['.']) by {
            if t@ == seq!['.'] {
                assert(t@.len() == 1 && t@[0] == '.');
            }
        }
        e - i > 0
    }
}

/// The components of `s` from position `start` on.
fn components<'a>(s: &'a str, chars: &Vec<char>, start: usize, verbatim: bool) -> (items: Vec<&'a str>)
    requires
        chars@ == s@,
        start <= chars.len(),
    ensures
        texts(items@) == spec_components(s@, start as int, verbatim),
{
    let mut items: Vec<&'a str> = Vec::new();
    let mut i = start;
    let n = chars.len();
    while i < n
        invariant
            n == chars.len(),
            chars@ == s@,
            i <= n,
            texts(items@) + spec_components(s@, i as int, verbatim) == spec_components(s@, start as int, verbatim),
        decreases n - i,
    {
        let e = next_sep(chars, i, verbatim);
        let keep = keep_component(chars, i, e, verbatim);
        let ghost before = items@;
        let ghost t = s@.subrange(i as int, e as int);
        let ghost rest = spec_components(s@, if e < n { e + 1 } else { n as int }, verbatim);
        if keep {
            items.push(s.substring_char(i, e));
            assert(texts(items@) =~= texts(before).push(t));
            assert(texts(items@) + rest =~= texts(before) + (seq![t] + rest));
        }
        i = if e < n { e + 1 } else { n };
        assert(spec_components(s@, i as int, verbatim) == rest);
    }
    assert(texts(items@) + spec_components(s@, i as int, verbatim) =~= texts(items@));
    items
}

fn is_dot(t: &str, count: usize) -> (b: bool)
    requires
        count == 1 || count == 2,
    ensures
        b == (t@ == (if count == 1 { seq!['.'] } else { seq!['.', '.'] })),
{
    let n = t.unicode_len();
    let r = if count == 1 {
        n == 1 && t.get_char(0) == '.'
    } else {
        n == 2 && t.get_char(0) == '.' && t.get_char(1) == '.'
    };
    if r {
        assert(t@ =~= (if count == 1 { seq!['.'] } else { seq!['.', '.'] }));
    } else {
        assert(t@ != (if count == 1 { seq!['.'] } else { seq!['.', '.'] })) by {
            if t@ == (if count == 1 { seq!['.'] } else { seq!['.', '.'] }) {
                assert(t@.len() == count);
            }
        }
    }
    r
}

/// Pushes the components `ts` onto `items`, resolving `..`.
fn apply_components<'a>(items: &mut Vec<&'a str>, ts: &Vec<&'a str>)
    ensures
        texts(final(items)@) == spec_apply_components(texts(old(items)@), texts(ts@)),
{
    let ghost start = texts(items@);
    let mut k: usize = 0;
    while k < ts.len()
        invariant
            k <= ts.len(),
            texts(items@) == spec_apply_components(start, texts(ts@).take(k as int)),
        decreases ts.len() - k,
    {
        let ghost before = texts(items@);
        let t = ts[k];
        if is_dot(t, 2) {
            if items.len() > 0 && !is_dot(items[items.len() - 1], 1) && !is_dot(items[items.len() - 1], 2) {
                items.pop();
                assert(texts(items@) =~= before.drop_last());
            }
        } else {
            items.push(t);
            assert(texts(items@) =~= before.push(t@));
        }
        assert(texts(ts@).take(k + 1).drop_last() =~= texts(ts@).take(k as int));
        k = k + 1;
    }
    assert(texts(ts@).take(k as int) =~= texts(ts@));
}

/// Writes a Windows path from its prefix, root and components.
fn render(prefix: &str, drive: bool, root: bool, items: &Vec<&str>) -> (path: String)
    ensures
        path@ == spec_render(prefix@, drive, root, texts(items@)),
{
    proof {
        reveal_strlit("\\");
    }
    let mut path = prefix.to_owned();
    if root || (items.len() > 0 && !drive) {
        path.append("\\");
    }
    let ghost head = path@;
    let mut k: usize = 0;
    while k < items.len()
        invariant
            k <= items.len(),
            path@ == head + spec_join_components(texts(items@).take(k as int)),
        decreases items.len() - k,
    {
        let ghost before = path@;
        let ghost t = texts(items@);
        proof {
            reveal_strlit("\\");
        }
        if k > 0 {
            path.append("\\");
        }
        path.append(items[k]);
        assert(t.take(k + 1).drop_last() =~= t.take(k as int));
        if k == 0 {
            assert(spec_join_components(t.take(0)) =~= Seq::<char>::empty());
            assert(before =~= head);
            assert(t.take(1).len() == 1);
            assert(t.take(1)[0] == t[0]);
            assert(t[0] == items@[0]@);
            assert(spec_join_components(t.take(1)) == t[0]);
            assert(path@ =~= head + spec_join_components(t.take(k + 1)));
        } else {
            assert(t.take(k + 1).last() == t[k as int]);
            assert(t[k as int] == items@[k as int]@);
            assert(spec_join_components(t.take(k + 1)) == spec_join_components(t.take(k + 1).drop_last())
                + seq!['\\'] + t.take(k + 1).last());
            assert(path@ =~= head + spec_join_components(t.take(k + 1)));
        }
        k = k + 1;
    }
    assert(texts(items@).take(k as int) =~= texts(items@));
    path
}

fn is_verbatim(k: PrefixKind) -> (b: bool)
    ensures
        b == spec_is_verbatim(k),
{
    match k {
        PrefixKind::Verbatim | PrefixKind::VerbatimUnc | PrefixKind::VerbatimDisk => true,
        _ => false,
    }
}

fn is_drive(k: PrefixKind) -> (b: bool)
    ensures
        b == spec_is_drive(k),
{
    match k {
        PrefixKind::Disk | PrefixKind::VerbatimDisk => true,
        _ => false,
    }
}

fn join_verbatim<'a>(
    base: &'a str,
    base_chars: &Vec<char>,
    kind: PrefixKind,
    len: usize,
    part: &'a str,
    part_chars: &Vec<char>,
) -> (joined: String)
    requires
        base_chars@ == base@,
        part_chars@ == part@,
        len <= base_chars.len(),
        part_chars.len() > 0,
    ensures
        joined@ == spec_join_verbatim(base@, kind, len as int, part@),
{
    let base_root = len < base_chars.len() && (base_chars[len] == '\\' || base_chars[len] == '/');
    let part_root = part_chars[0] == '\\' || part_chars[0] == '/';
    let start = if base_root { len + 1 } else { len };
    let mut items: Vec<&'a str> = if part_root { Vec::new() } else { components(base, base_chars, start, true) };
    proof {
        if part_root {
            assert(texts(items@) =~= Seq::<Seq<char>>::empty());
        }
    }
    let ts = components(part, part_chars, 0, false);
    apply_components(&mut items, &ts);
    render(base.substring_char(0, len), is_drive(kind), base_root || part_root, &items)
}

fn join_windows(base: &str, part: &str) -> (joined: String)
    ensures
        joined@ == spec_join_windows(base@, part@),
{
    proof {
        reveal_strlit("\\");
    }
    let base_chars = to_chars(base);
    let part_chars = to_chars(part);
    let (part_kind, _) = prefix(&part_chars);
    match part_kind {
        PrefixKind::NoPrefix => {},
        _ => {
            return part.to_owned();
        },
    }
    let (kind, len) = prefix(&base_chars);
    if is_verbatim(kind) && part_chars.len() > 0 {
        return join_verbatim(base, &base_chars, kind, len, part, &part_chars);
    }
    if part_chars.len() > 0 && (part_chars[0] == '\\' || part_chars[0] == '/') {
        let mut joined = base.substring_char(0, len).to_owned();
        joined.append(part);
        return joined;
    }
    let n = base_chars.len();
    let mut joined = base.to_owned();
    if n == 0 || base_chars[n - 1] == '\\' || base_chars[n - 1] == '/' || (is_drive(kind) && len == n) {
        joined.append(part);
    } else {
        joined.append("\\");
        joined.append(part);
    }
    joined
}

fn join_unix(base: &str, part: &str) -> (joined: String)
    ensures
        joined@ == spec_join_unix(base@, part@),
{
    proof {
        reveal_strlit("/");
    }
    let part_len = part.unicode_len();
    if part_len > 0 && part.get_char(0) == '/' {
        return part.to_owned();
    }
    let base_len = base.unicode_len();
    let mut joined = base.to_owned();
    if base_len == 0 || base.get_char(base_len - 1) == '/' {
        joined.append(part);
    } else {
        joined.append("/");
        joined.append(part);
    }
    joined
}

/// Adjoins `part` to the path `base`, as a path is extended by a component
/// (see [`spec_join`]). On Windows the prefixes of both paths are
/// recognised (drives, network shares, devices and verbatim prefixes), and
/// a path with a verbatim prefix is rebuilt from its components.
pub fn join_path(os: TargetOs, base: &str, part: &str) -> (joined: String)
    ensures
        joined@ == spec_join(os, base@, part@),
{
    match os {
        TargetOs::Windows => join_windows(base, part),
        _ => join_unix(base, part),
    }
}

} // verus!
