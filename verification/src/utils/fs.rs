//! File-name and path helpers.

use vstd::prelude::*;
use crate::deps::yt_dlp::opt_view;
use crate::text::{ascii_lower, chars_of, occurs_at, pieces_view, split_chars, split_on, string_from_chars};
use normalize_path::NormalizePath;

verus! {

/// Whether `s` holds none of the path separators `/` and `\` and no `:`.
pub open spec fn is_plain_component(s: Seq<char>) -> bool {
    forall|i: int| 0 <= i < s.len() ==> {
        let c = #[trigger] s[i];
        c != '/' && c != '\\' && c != ':'
    }
}

/// Whether joining `name` onto a path only appends it on every platform:
/// it holds no `/` and no `:`, and does not begin with `\`.
pub open spec fn joins_plainly(name: Seq<char>) -> bool {
    &&& forall|i: int| 0 <= i < name.len() ==> (#[trigger] name[i]) != '/' && name[i] != ':'
    &&& (name.len() > 0 ==> name[0] != '\\')
}

/// Whether `r` is `base` with `name` appended, directly or after one
/// separator (`/` or `\`).
pub open spec fn appended(base: Seq<char>, name: Seq<char>, r: Seq<char>) -> bool {
    r == base + name || r == base + "/"@ + name || r == base + "\\"@ + name
}

/// Whether a path text begins with the verbatim prefix `\\?\` of Windows.
pub open spec fn has_verbatim_prefix(p: Seq<char>) -> bool {
    p.len() >= 4 && p[0] == '\\' && p[1] == '\\' && p[2] == '?' && p[3] == '\\'
}

/// Whether `r` is what joining `name` onto `base` gives, as far as it is
/// the same on every platform: `base` followed by at most one separator and
/// `name`, unless `base` has a verbatim prefix (then Windows rebuilds the
/// whole path from its components, and nothing is said).
pub open spec fn joined(base: Seq<char>, name: Seq<char>, r: Seq<char>) -> bool {
    !has_verbatim_prefix(base) ==> appended(base, name, r)
}

/// Whether joining onto `base` inserts a separator on every platform: the
/// base is not empty, does not end in a separator or the `:` of a drive,
/// and has no verbatim prefix.
pub open spec fn needs_separator(base: Seq<char>) -> bool {
    base.len() > 0 && !ends_component(base.last()) && !has_verbatim_prefix(base)
}

/// Whether `r` is `base`, one separator (`/` or `\`, the platform's own)
/// and `name`.
pub open spec fn separated(base: Seq<char>, name: Seq<char>, r: Seq<char>) -> bool {
    r == base + "/"@ + name || r == base + "\\"@ + name
}

/// One step of joining `name` onto `base` as [`join_path`] states it: see
/// [`joined`], and with exactly one separator where one is needed (see
/// [`needs_separator`]).
pub open spec fn join_step(base: Seq<char>, name: Seq<char>, r: Seq<char>) -> bool {
    joined(base, name, r) && (needs_separator(base) ==> separated(base, name, r))
}

/// Appends a file name to a directory path.
///
/// Calls `std::path::Path::join`. Which separator it inserts, and whether
/// it inserts one, depends on the platform and on how `base` ends; the
/// contract states what holds on every platform for names that join
/// plainly (see [`joins_plainly`]) onto a base without a verbatim prefix:
/// the directory path is kept, followed by at most one separator and the
/// name, and by exactly one when the base is not empty and ends in neither
/// a separator nor a `:` (`PathBuf::push` adds the platform's separator
/// then). Which of `/` and `\` that is, is the platform's. Other names
/// (absolute ones, or drive prefixes on Windows) may replace the path, and
/// on Windows a base with a verbatim prefix is rebuilt from its components
/// with `.` and `..` resolved; nothing is stated of those.
#[verifier::external_body]
pub(crate) fn join_path(base: &str, name: &str) -> (r: String)
    ensures
        joins_plainly(name@) ==> join_step(base@, name@, r@),
{
    std::path::Path::new(base).join(name).to_string_lossy().into_owned()
}

/// Whether a file or directory exists at `path`.
///
/// Calls `std::path::Path::exists`. The answer depends on the file system
/// at the time of the call, so nothing is stated of it.
#[verifier::external_body]
pub(crate) fn path_exists(path: &str) -> bool {
    std::path::Path::new(path).exists()
}

/// Whether `c` may end a path component on some platform: a separator
/// (`/` or `\`) or the `:` that ends a Windows drive prefix.
pub open spec fn ends_component(c: char) -> bool {
    c == '/' || c == '\\' || c == ':'
}

/// Whether the name `n` stands in the path text `p` as a whole component:
/// it occurs there with a component boundary (or the text's edge) on
/// either side.
pub open spec fn has_component(p: Seq<char>, n: Seq<char>) -> bool {
    exists|i: int|
        #[trigger] occurs_at(p, n, i) && (i == 0 || ends_component(p[i - 1])) && (i + n.len() == p.len()
            || ends_component(p[i + n.len()]))
}

/// The single plain name that a relative path `n` or `./n` consists of.
pub open spec fn relative_name(b: Seq<char>) -> Option<Seq<char>> {
    if is_plain_name(b) {
        Some(b)
    } else if b.len() > 2 && b.subrange(0, 2) == "./"@ && is_plain_name(b.subrange(2, b.len() as int)) {
        Some(b.subrange(2, b.len() as int))
    } else {
        None
    }
}

/// Whether two paths are equal as `std::path::Path` compares them.
///
/// Calls `PartialEq for Path`, which compares the paths' components and so
/// depends on the platform's separators. The contract states what holds on
/// every platform: identical texts are equal paths, and a path equal to a
/// relative path `n` or `./n` of one plain name `n` has `n` as a component
/// of its text (its components are those of the other path). Which other
/// texts are equal is left unsaid.
#[verifier::external_body]
pub(crate) fn same_path(a: &str, b: &str) -> (r: bool)
    ensures
        a@ == b@ ==> r,
        r && relative_name(b@) is Some ==> has_component(a@, relative_name(b@)->0),
{
    std::path::Path::new(a) == std::path::Path::new(b)
}

/// Whether a path ends with the components of `child`.
///
/// Calls `std::path::Path::ends_with`; which texts are components depends
/// on the platform. The contract states that a path ends with itself, and
/// that a path ending with one plain name has that name as a component of
/// its text (its last component). Which other paths end with `child` is
/// left unsaid.
#[verifier::external_body]
pub(crate) fn path_ends_with(path: &str, child: &str) -> (r: bool)
    ensures
        path@ == child@ ==> r,
        r && is_plain_name(child@) ==> has_component(path@, child@),
{
    std::path::Path::new(path).ends_with(child)
}

/// Whether `s` is a single plain path component: non-empty, free of
/// separators and `:`, and neither `.` nor `..`.
pub open spec fn is_plain_name(s: Seq<char>) -> bool {
    s.len() > 0 && is_plain_component(s) && s != "."@ && s != ".."@
}

/// The path with redundant separators, `.` and `..` components collapsed.
///
/// Calls `NormalizePath::normalize` of the `normalize-path` crate, which
/// works on the platform's path components. The contract states what holds
/// on every platform: a single plain component is its own normal form, the
/// empty path and `.` normalize to `.`, and every plain name that is a
/// component of the result is one of the path (the result is built from the
/// path's prefix and its components, some of them dropped).
#[verifier::external_body]
pub fn normalize_path(path: &str) -> (r: String)
    ensures
        is_plain_name(path@) ==> r@ == path@,
        path@ == ""@ || path@ == "."@ ==> r@ == "."@,
        forall|n: Seq<char>| is_plain_name(n) && #[trigger] has_component(r@, n) ==> has_component(path@, n),
{
    std::path::Path::new(path).normalize().to_string_lossy().into_owned()
}

/// The position of the last `c` in `s`, if any.
pub open spec fn last_index_of(s: Seq<char>, c: char) -> Option<int>
    decreases s.len(),
{
    if s.len() == 0 {
        None
    } else if s.last() == c {
        Some(s.len() - 1)
    } else {
        last_index_of(s.drop_last(), c)
    }
}

/// The stem of a plain file name: the name before its last `.`, or the
/// whole name when it has no `.` other than a leading one.
pub open spec fn stem_of(name: Seq<char>) -> Seq<char> {
    match last_index_of(name, '.') {
        Some(k) => if k == 0 { name } else { name.subrange(0, k) },
        None => name,
    }
}

/// The extension of a plain file name: the text after its last `.`, if
/// that `.` is not the leading character.
pub open spec fn extension_of(name: Seq<char>) -> Option<Seq<char>> {
    match last_index_of(name, '.') {
        Some(k) => if k == 0 { None } else { Some(name.subrange(k + 1, name.len() as int)) },
        None => None,
    }
}

/// Whether `c` separates path components on some platform.
pub open spec fn is_separator(c: char) -> bool {
    c == '/' || c == '\\'
}

/// Whether a path reads into the same components on every platform: it
/// holds no `:` (no drive prefix) and does not begin with two separators
/// (no UNC, device or verbatim prefix).
pub open spec fn is_simple_path(p: Seq<char>) -> bool {
    &&& forall|i: int| 0 <= i < p.len() ==> (#[trigger] p[i]) != ':'
    &&& !(p.len() >= 2 && is_separator(p[0]) && is_separator(p[1]))
}

/// The text after the last `/` of a path (the whole path when it has none).
pub open spec fn after_last_slash(p: Seq<char>) -> Seq<char> {
    match last_index_of(p, '/') {
        Some(k) => p.subrange(k + 1, p.len() as int),
        None => p,
    }
}

/// The file name of a path whose last component is a plain name on every
/// platform: the path is simple (see [`is_simple_path`]) and the text after
/// its last `/` is a plain name (see [`is_plain_name`]). `/` separates
/// components on Unix and on Windows alike.
pub open spec fn plain_file_name_of(p: Seq<char>) -> Option<Seq<char>> {
    if is_simple_path(p) && is_plain_name(after_last_slash(p)) {
        Some(after_last_slash(p))
    } else {
        None
    }
}

/// The file name of a path without its extension.
///
/// Calls `std::path::Path::file_stem`, whose reading of a path into
/// components depends on the platform. The contract states the result
/// where it is the same on every platform: for a path whose file name is a
/// plain name after its last `/` (see [`plain_file_name_of`]), the stem of
/// that name; and none for the root `/`.
#[verifier::external_body]
fn path_file_stem(path: &str) -> (r: Option<String>)
    ensures
        is_plain_name(path@) ==> opt_view(r) == Some(stem_of(path@)),
        plain_file_name_of(path@) matches Some(n) ==> opt_view(r) == Some(stem_of(n)),
        path@ == "/"@ ==> r is None,
{
    std::path::Path::new(path).file_stem().and_then(|s| s.to_str()).map(|s| s.to_string())
}

/// The extension of a path's file name.
///
/// Calls `std::path::Path::extension`, whose reading of a path into
/// components depends on the platform. The contract states the result
/// where it is the same on every platform: for a path whose file name is a
/// plain name after its last `/` (see [`plain_file_name_of`]), the
/// extension of that name; and none for the root `/`.
#[verifier::external_body]
fn path_extension(path: &str) -> (r: Option<String>)
    ensures
        is_plain_name(path@) ==> opt_view(r) == extension_of(path@),
        plain_file_name_of(path@) matches Some(n) ==> opt_view(r) == extension_of(n),
        path@ == "/"@ ==> r is None,
{
    std::path::Path::new(path).extension().and_then(|s| s.to_str()).map(|s| s.to_string())
}

/// The file name of a path without its extension (see [`stem_of`]): of the
/// whole path when it is a plain name, of the name after its last `/` on a
/// simple path (see [`plain_file_name_of`]); none for the root `/`.
pub fn file_name_without_ext(path: &str) -> (r: Option<String>)
    ensures
        is_plain_name(path@) ==> opt_view(r) == Some(stem_of(path@)),
        plain_file_name_of(path@) matches Some(n) ==> opt_view(r) == Some(stem_of(n)),
        path@ == "/"@ ==> r is None,
{
    path_file_stem(path)
}

/// The extension of a path's file name (see [`extension_of`]): of the whole
/// path when it is a plain name, of the name after its last `/` on a simple
/// path (see [`plain_file_name_of`]); none for the root `/`.
pub fn extension(path: &str) -> (r: Option<String>)
    ensures
        is_plain_name(path@) ==> opt_view(r) == extension_of(path@),
        plain_file_name_of(path@) matches Some(n) ==> opt_view(r) == extension_of(n),
        path@ == "/"@ ==> r is None,
{
    path_extension(path)
}

/// Whether `r` is reached from `base` by appending the components in
/// order, each as [`join_path`] appends it.
pub open spec fn joins_all(base: Seq<char>, parts: Seq<Seq<char>>, r: Seq<char>) -> bool
    decreases parts.len(),
{
    if parts.len() == 0 {
        r == base
    } else {
        exists|mid: Seq<char>| #[trigger] join_step(base, parts[0], mid)
            && joins_all(mid, parts.subrange(1, parts.len() as int), r)
    }
}

proof fn lemma_joins_all_step(base: Seq<char>, parts: Seq<Seq<char>>, i: int, mid: Seq<char>, next: Seq<char>)
    requires
        0 <= i < parts.len(),
        joins_all_prefix(base, parts, i, mid),
        join_step(mid, parts[i], next),
    ensures
        joins_all_prefix(base, parts, i + 1, next),
    decreases i,
{
    let p = parts.subrange(0, i + 1);
    if i == 0 {
        assert(parts.subrange(0, 0).len() == 0);
        assert(mid == base);
        assert(p.subrange(1, 1).len() == 0);
        assert(joins_all(next, p.subrange(1, 1), next));
        assert(p[0] == parts[0]);
        assert(join_step(base, p[0], next));
        assert(joins_all(base, p, next));
    } else {
        let q = parts.subrange(0, i);
        let rest = parts.subrange(1, parts.len() as int);
        assert(q.len() > 0);
        let m = choose|m: Seq<char>| #[trigger] join_step(base, q[0], m) && joins_all(m, q.subrange(1, q.len() as int), mid);
        assert(join_step(base, q[0], m) && joins_all(m, q.subrange(1, q.len() as int), mid));
        assert(q.subrange(1, q.len() as int) =~= rest.subrange(0, i - 1));
        assert(joins_all_prefix(m, rest, i - 1, mid));
        assert(rest[i - 1] == parts[i]);
        lemma_joins_all_step(m, rest, i - 1, mid, next);
        assert(rest.subrange(0, i) =~= p.subrange(1, p.len() as int));
        assert(joins_all(m, p.subrange(1, p.len() as int), next));
        assert(p[0] == q[0]);
        assert(join_step(base, p[0], m));
        assert(joins_all(base, p, next));
    }
}

/// [`joins_all`] over the first `i` components.
pub open spec fn joins_all_prefix(base: Seq<char>, parts: Seq<Seq<char>>, i: int, r: Seq<char>) -> bool {
    joins_all(base, parts.subrange(0, i), r)
}

/// `base` with each `/`-separated component of `relative` joined onto it
/// in turn, as `Path::join` joins it: each component follows one separator
/// wherever the text before it is not empty and ends in neither a separator
/// nor a `:` (see [`join_step`]).
pub fn join_paths(base: &str, relative: &str) -> (r: String)
    ensures
        (forall|i: int| 0 <= i < split_on(relative@, '/').len() ==> joins_plainly(#[trigger] split_on(relative@, '/')[i]))
            ==> joins_all(base@, split_on(relative@, '/'), r@),
{
    let parts = split_chars(&chars_of(relative), '/');
    let ghost pv = pieces_view(parts@);
    let mut path = string_from_chars(&chars_of(base));
    let mut i: usize = 0;
    let ghost plain = forall|k: int| 0 <= k < pv.len() ==> joins_plainly(#[trigger] pv[k]);
    assert(pv.subrange(0, 0) =~= Seq::<Seq<char>>::empty());
    while i < parts.len()
        invariant
            i <= parts.len(),
            pv == pieces_view(parts@),
            pv == split_on(relative@, '/'),
            plain == (forall|k: int| 0 <= k < pv.len() ==> joins_plainly(#[trigger] pv[k])),
            plain ==> joins_all_prefix(base@, pv, i as int, path@),
        decreases parts.len() - i,
    {
        let component = string_from_chars(&parts[i]);
        let next = join_path(path.as_str(), component.as_str());
        proof {
            if plain {
                assert(joins_plainly(pv[i as int]));
                lemma_joins_all_step(base@, pv, i as int, path@, next@);
            }
        }
        path = next;
        i = i + 1;
    }
    assert(pv.subrange(0, pv.len() as int) =~= pv);
    path
}

/// The characters that file names may not hold: the path separators and
/// the characters Windows reserves, `/ ? < > \ : * | "`.
pub open spec fn is_illegal_in_name(c: char) -> bool {
    c == '/' || c == '?' || c == '<' || c == '>' || c == '\\' || c == ':' || c == '*' || c == '|' || c == '"'
}

/// The control characters, `U+0000`..`U+001F` and `U+0080`..`U+009F`.
pub open spec fn is_control(c: char) -> bool {
    ('\u{0}' <= c && c <= '\u{1f}') || ('\u{80}' <= c && c <= '\u{9f}')
}

/// The characters of a plain file name: ASCII letters and digits, `-`,
/// `_`, `.` and the space.
pub open spec fn is_plain_file_char(c: char) -> bool {
    ('a' <= c && c <= 'z') || ('A' <= c && c <= 'Z') || ('0' <= c && c <= '9') || c == '-' || c == '_'
        || c == '.' || c == ' '
}

/// Whether the name is one of the device names that Windows reserves
/// (`con`, `prn`, `aux`, `nul`, `com0`..`com9`, `lpt0`..`lpt9`, in any
/// case), alone or followed by a `.` and an extension.
pub open spec fn is_windows_device_name(s: Seq<char>) -> bool {
    let head = ascii_lower(s.take(3));
    ||| (head == "con"@ || head == "prn"@ || head == "aux"@ || head == "nul"@) && (s.len() == 3 || (s.len()
        > 3 && s[3] == '.'))
    ||| (head == "com"@ || head == "lpt"@) && s.len() >= 4 && '0' <= s[3] && s[3] <= '9' && (s.len() == 4 || (
    s.len() > 4 && s[4] == '.'))
}

/// Whether a file name is already safe everywhere: at most 255 characters,
/// each a plain one (see [`is_plain_file_char`]), not ending in a dot or a
/// space, and not a reserved Windows device name.
pub open spec fn is_plain_file_name(s: Seq<char>) -> bool {
    &&& s.len() <= 255
    &&& forall|i: int| 0 <= i < s.len() ==> is_plain_file_char(#[trigger] s[i])
    &&& (s.len() > 0 ==> s.last() != '.' && s.last() != ' ')
    &&& !is_windows_device_name(s)
}

/// The name without its illegal characters (see [`is_illegal_in_name`]).
pub open spec fn without_illegal(s: Seq<char>) -> Seq<char> {
    s.filter(|c: char| !is_illegal_in_name(c))
}

/// Whether every character of a name is a plain one (see
/// [`is_plain_file_char`]) or an illegal one (see [`is_illegal_in_name`]).
pub open spec fn plain_or_illegal(s: Seq<char>) -> bool {
    forall|i: int| 0 <= i < s.len() ==> is_plain_file_char(#[trigger] s[i]) || is_illegal_in_name(s[i])
}

/// A file name made safe for every file system.
///
/// Calls `sanitize_filename::sanitize` (version 0.6), which removes the
/// illegal and control characters, empties a name made only of dots, on
/// Windows also removes reserved device names and trailing dots and
/// spaces, and keeps at most 255 bytes. The result depends on the platform,
/// so the contract states what holds on every platform: the result holds
/// no illegal and no control character, is no longer than the name, and a
/// name that is already plain (see [`is_plain_file_name`]) comes back as it
/// is, since none of those steps applies to it. A name of plain and illegal
/// characters whose plain characters make a plain name comes back as those
/// plain characters: only the first step applies to it. What is removed
/// from other names is left unsaid.
#[verifier::external_body]
fn sanitized(name: &str) -> (r: String)
    ensures
        forall|i: int| 0 <= i < r@.len() ==> !is_illegal_in_name(#[trigger] r@[i]) && !is_control(r@[i]),
        r@.len() <= name@.len(),
        is_plain_file_name(name@) ==> r@ == name@,
        plain_or_illegal(name@) && is_plain_file_name(without_illegal(name@)) ==> r@ == without_illegal(name@),
{
    sanitize_filename::sanitize(name)
}

/// A file name made safe for every file system: no illegal and no control
/// character, no longer than the name, a plain name unchanged, and a plain
/// name with illegal characters mixed in reduced to its plain characters.
pub fn sanitize_filename(name: &str) -> (r: String)
    ensures
        forall|i: int| 0 <= i < r@.len() ==> !is_illegal_in_name(#[trigger] r@[i]) && !is_control(r@[i]),
        r@.len() <= name@.len(),
        is_plain_file_name(name@) ==> r@ == name@,
        plain_or_illegal(name@) && is_plain_file_name(without_illegal(name@)) ==> r@ == without_illegal(name@),
{
    sanitized(name)
}

} // verus!
