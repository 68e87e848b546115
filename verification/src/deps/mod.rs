//! Runtime dependencies (yt-dlp, ffmpeg and deno): their status records and
//! the comparison of an installed version against the latest release.

use vstd::prelude::*;

pub mod path;
pub mod platform;
pub mod resolve;
pub mod versions;
pub mod yt_dlp;
pub mod ffmpeg;
pub mod deno;

use crate::deps::deno::Deno;
use crate::deps::ffmpeg::FFmpeg;
use crate::deps::yt_dlp::{opt_str_view, opt_to_owned, opt_view, YtDlp};
use crate::text::{owned, chars_of, split_on, split_chars, pieces_view,
    all_digits, char_is_whitespace, digits_value, is_whitespace, lemma_decimal_value, parse_unsigned,
    parse_unsigned_chars, skip_whitespace, skip_whitespace_from, slice_chars, trim, trim_chars,
    unsigned_body, decimal, is_digit, lemma_parse_decimal,
};

verus! {

// ---------------------------------------------------------------- normalising

/// `s` without every leading repetition of `deno `.
pub open spec fn strip_deno_prefix(s: Seq<char>) -> Seq<char>
    decreases s.len(),
{
    if s.len() >= 5 && s[0] == 'd' && s[1] == 'e' && s[2] == 'n' && s[3] == 'o' && s[4] == ' ' {
        strip_deno_prefix(s.skip(5))
    } else {
        s
    }
}

/// `s` without its leading `v`s.
pub open spec fn strip_v_prefix(s: Seq<char>) -> Seq<char>
    decreases s.len(),
{
    if s.len() > 0 && s[0] == 'v' { strip_v_prefix(s.drop_first()) } else { s }
}

/// The leading run of characters of `s` that are not white space.
pub open spec fn leading_token(s: Seq<char>) -> Seq<char>
    decreases s.len(),
{
    if s.len() > 0 && !is_whitespace(s[0]) {
        seq![s[0]] + leading_token(s.drop_first())
    } else {
        Seq::empty()
    }
}

/// The comparable core of a version string: leading `deno ` and `v`
/// prefixes removed, then its first white-space-separated word; the string
/// itself when no word is left.
pub open spec fn normalized_version(s: Seq<char>) -> Seq<char> {
    let t = skip_whitespace(strip_v_prefix(strip_deno_prefix(s)));
    if t.len() == 0 { s } else { leading_token(t) }
}

// ---------------------------------------------------------------- segments

/// `s` split at every `.`, as `str::split('.')` splits it.
pub open spec fn split_dots(s: Seq<char>) -> Seq<Seq<char>> {
    split_on(s, '.')
}

/// `s` without the characters before its first ASCII digit.
pub open spec fn skip_non_digits(s: Seq<char>) -> Seq<char>
    decreases s.len(),
{
    if s.len() > 0 && !('0' <= s[0] && s[0] <= '9') { skip_non_digits(s.drop_first()) } else { s }
}

/// The leading run of ASCII digits of `s`.
pub open spec fn leading_digits(s: Seq<char>) -> Seq<char>
    decreases s.len(),
{
    if s.len() > 0 && '0' <= s[0] && s[0] <= '9' {
        seq![s[0]] + leading_digits(s.drop_first())
    } else {
        Seq::empty()
    }
}

/// The number a version segment stands for: the first run of digits in it,
/// if there is one and it fits in a `u64`.
pub open spec fn segment_number(part: Seq<char>) -> Option<nat> {
    let digits = leading_digits(skip_non_digits(part));
    if digits.len() == 0 { None } else { parse_unsigned(digits, u64::MAX as nat) }
}

/// Whether every piece of `parts` stands for a number.
pub open spec fn all_numeric(parts: Seq<Seq<char>>) -> bool {
    forall|i: int| 0 <= i < parts.len() ==> (#[trigger] segment_number(parts[i])) is Some
}

/// The numbers of a version of one to four dot-separated segments, each
/// holding a run of digits; `None` for any other text.
pub open spec fn version_numbers(s: Seq<char>) -> Option<Seq<nat>> {
    let parts = split_dots(s);
    if parts.len() > 4 || !all_numeric(parts) {
        None
    } else {
        Some(parts.map_values(|p: Seq<char>| segment_number(p).unwrap()))
    }
}

/// The `i`th number of a version, zero past its end.
pub open spec fn number_at(a: Seq<nat>, i: int) -> nat {
    if 0 <= i < a.len() { a[i] } else { 0 }
}

/// Whether `a` comes before `b` when both are compared number by number from
/// position `i`, the shorter one padded with zeros, up to position `n`.
pub open spec fn numbers_less_from(a: Seq<nat>, b: Seq<nat>, i: int, n: int) -> bool
    decreases n - i,
{
    if i >= n {
        false
    } else if number_at(a, i) != number_at(b, i) {
        number_at(a, i) < number_at(b, i)
    } else {
        numbers_less_from(a, b, i + 1, n)
    }
}

/// Whether version numbers `a` come before `b` (zero-padded comparison).
pub open spec fn numbers_less(a: Seq<nat>, b: Seq<nat>) -> bool {
    numbers_less_from(a, b, 0, if a.len() >= b.len() { a.len() as int } else { b.len() as int })
}

/// Whether the installed version `current` is older than the release
/// `latest`. Both are normalised first; equal texts are never outdated;
/// numeric versions are compared number by number; any other differing
/// texts count as outdated.
pub open spec fn outdated(current: Seq<char>, latest: Seq<char>) -> bool {
    let c = normalized_version(current);
    let l = normalized_version(latest);
    if c == l {
        false
    } else {
        match (version_numbers(c), version_numbers(l)) {
            (Some(x), Some(y)) => numbers_less(x, y),
            _ => true,
        }
    }
}

// ---------------------------------------------------------------- exec

fn is_ascii_digit(c: char) -> (b: bool)
    ensures
        b == ('0' <= c && c <= '9'),
{
    '0' <= c && c <= '9'
}

/// The comparable core of a version string (see [`normalized_version`]).
pub fn norm_version(s: &Vec<char>) -> (r: Vec<char>)
    ensures
        r@ == normalized_version(s@),
{
    let n = s.len();
    let mut i: usize = 0;
    assert(s@.skip(0) =~= s@);
    while n >= 5 && i <= n - 5 && s[i] == 'd' && s[i + 1] == 'e' && s[i + 2] == 'n' && s[i + 3] == 'o' && s[i + 4] == ' '
        invariant
            n == s.len(),
            i <= n,
            strip_deno_prefix(s@) == strip_deno_prefix(s@.skip(i as int)),
        decreases n - i,
    {
        assert(s@.skip(i as int).skip(5) =~= s@.skip(i + 5));
        i = i + 5;
    }
    assert(strip_deno_prefix(s@.skip(i as int)) == s@.skip(i as int));
    while i < n && s[i] == 'v'
        invariant
            n == s.len(),
            i <= n,
            strip_v_prefix(strip_deno_prefix(s@)) == strip_v_prefix(s@.skip(i as int)),
        decreases n - i,
    {
        assert(s@.skip(i as int).drop_first() =~= s@.skip(i + 1));
        i = i + 1;
    }
    assert(strip_v_prefix(s@.skip(i as int)) == s@.skip(i as int));
    let j = skip_whitespace_from(s, i);
    if j == n {
        assert(s@.skip(j as int).len() == 0);
        return slice_chars(s, 0, n);
    }
    let mut k = j;
    while k < n && !char_is_whitespace(s[k])
        invariant
            n == s.len(),
            j <= k <= n,
            leading_token(s@.skip(j as int)) == s@.subrange(j as int, k as int) + leading_token(s@.skip(k as int)),
        decreases n - k,
    {
        assert(s@.skip(k as int).drop_first() =~= s@.skip(k + 1));
        assert(s@.subrange(j as int, k + 1) =~= s@.subrange(j as int, k as int) + seq![s@[k as int]]);
        k = k + 1;
    }
    assert(leading_token(s@.skip(k as int)) =~= Seq::<char>::empty());
    assert(s@.subrange(0, n as int) =~= s@);
    slice_chars(s, j, k)
}

/// The pieces of `s` between its dots (see [`split_dots`]).
pub fn split_at_dots(s: &Vec<char>) -> (parts: Vec<Vec<char>>)
    ensures
        pieces_view(parts@) == split_dots(s@),
{
    split_chars(s, '.')
}

/// The number a version segment stands for (see [`segment_number`]).
pub fn segment_value(part: &Vec<char>) -> (r: Option<u64>)
    ensures
        r matches Some(v) ==> segment_number(part@) == Some(v as nat),
        r is None ==> segment_number(part@) is None,
{
    let n = part.len();
    let mut j: usize = 0;
    assert(part@.skip(0) =~= part@);
    while j < n && !is_ascii_digit(part[j])
        invariant
            n == part.len(),
            j <= n,
            skip_non_digits(part@) == skip_non_digits(part@.skip(j as int)),
        decreases n - j,
    {
        assert(part@.skip(j as int).drop_first() =~= part@.skip(j + 1));
        j = j + 1;
    }
    assert(skip_non_digits(part@.skip(j as int)) == part@.skip(j as int));
    let mut k = j;
    while k < n && is_ascii_digit(part[k])
        invariant
            n == part.len(),
            j <= k <= n,
            leading_digits(part@.skip(j as int)) == part@.subrange(j as int, k as int) + leading_digits(part@.skip(k as int)),
        decreases n - k,
    {
        assert(part@.skip(k as int).drop_first() =~= part@.skip(k + 1));
        assert(part@.subrange(j as int, k + 1) =~= part@.subrange(j as int, k as int) + seq![part@[k as int]]);
        k = k + 1;
    }
    assert(leading_digits(part@.skip(k as int)) =~= Seq::<char>::empty());
    assert(part@.subrange(j as int, k as int) + Seq::<char>::empty() =~= part@.subrange(j as int, k as int));
    if k == j {
        return None;
    }
    let digits = slice_chars(part, j, k);
    parse_unsigned_chars(&digits, u64::MAX)
}

/// The numbers of a version (see [`version_numbers`]).
pub fn version_segments(s: &Vec<char>) -> (r: Option<Vec<u64>>)
    ensures
        r matches Some(v) ==> (version_numbers(s@) matches Some(ns) && ns == v@.map_values(|x: u64| x as nat)),
        r is None ==> version_numbers(s@) is None,
{
    let parts = split_at_dots(s);
    let ghost pv = pieces_view(parts@);
    if parts.len() > 4 {
        return None;
    }
    let mut nums: Vec<u64> = Vec::new();
    let mut i: usize = 0;
    while i < parts.len()
        invariant
            pv == pieces_view(parts@),
            pv == split_dots(s@),
            i <= parts.len(),
            nums.len() == i,
            forall|j: int| 0 <= j < i ==> segment_number(#[trigger] pv[j]) == Some(nums@[j] as nat),
        decreases parts.len() - i,
    {
        match segment_value(&parts[i]) {
            Some(v) => {
                nums.push(v);
            },
            None => {
                assert(segment_number(pv[i as int]) is None);
                assert(!all_numeric(pv));
                return None;
            },
        }
        i = i + 1;
    }
    assert(all_numeric(pv));
    assert(nums@.map_values(|x: u64| x as nat) =~= pv.map_values(|p: Seq<char>| segment_number(p).unwrap()));
    Some(nums)
}

/// Whether version numbers `a` come before `b` (see [`numbers_less`]).
pub fn segments_less(a: &Vec<u64>, b: &Vec<u64>) -> (r: bool)
    ensures
        r == numbers_less(a@.map_values(|x: u64| x as nat), b@.map_values(|x: u64| x as nat)),
{
    let ghost av = a@.map_values(|x: u64| x as nat);
    let ghost bv = b@.map_values(|x: u64| x as nat);
    let n = if a.len() >= b.len() { a.len() } else { b.len() };
    let mut i: usize = 0;
    while i < n
        invariant
            i <= n,
            n == (if a.len() >= b.len() { a.len() } else { b.len() }),
            av == a@.map_values(|x: u64| x as nat),
            bv == b@.map_values(|x: u64| x as nat),
            numbers_less(av, bv) == numbers_less_from(av, bv, i as int, n as int),
        decreases n - i,
    {
        let x: u64 = if i < a.len() { a[i] } else { 0 };
        let y: u64 = if i < b.len() { b[i] } else { 0 };
        assert(x as nat == number_at(av, i as int));
        assert(y as nat == number_at(bv, i as int));
        if x != y {
            return x < y;
        }
        i = i + 1;
    }
    false
}

/// Whether the installed version `current` is older than the release
/// `latest` (see [`outdated`]): prefixes such as `deno ` and `v` are
/// tolerated, numeric versions are compared segment by segment, and texts
/// that are not numeric versions count as outdated whenever they differ.
pub fn version_outdated(current: &str, latest: &str) -> (r: bool)
    ensures
        r == outdated(current@, latest@),
{
    version_outdated_chars(&chars_of(current), &chars_of(latest))
}

/// [`version_outdated`] on character vectors.
pub fn version_outdated_chars(current: &Vec<char>, latest: &Vec<char>) -> (r: bool)
    ensures
        r == outdated(current@, latest@),
{
    let c = norm_version(current);
    let l = norm_version(latest);
    if vec_chars_eq(&c, &l) {
        return false;
    }
    match (version_segments(&c), version_segments(&l)) {
        (Some(x), Some(y)) => segments_less(&x, &y),
        _ => true,
    }
}

/// Whether two character vectors are equal.
pub fn vec_chars_eq(a: &Vec<char>, b: &Vec<char>) -> (r: bool)
    ensures
        r == (a@ == b@),
{
    if a.len() != b.len() {
        return false;
    }
    let mut i: usize = 0;
    while i < a.len()
        invariant
            a.len() == b.len(),
            i <= a.len(),
            forall|j: int| 0 <= j < i ==> a@[j] == b@[j],
        decreases a.len() - i,
    {
        if a[i] != b[i] {
            return false;
        }
        i = i + 1;
    }
    assert(a@ =~= b@);
    true
}


// ---------------------------------------------------------------- status

/// What is known of one dependency.
#[derive(Debug, Clone)]
pub struct DepStatus {
    pub name: String,
    pub installed: bool,
    pub version: Option<String>,
    pub path: String,
    pub latest: Option<String>,
    pub update_available: bool,
}

/// The installed version of a status, empty when unknown.
pub open spec fn current_version(d: DepStatus) -> Seq<char> {
    match d.version {
        Some(v) => v@,
        None => Seq::empty(),
    }
}

/// Whether a dependency with the installed version `current` has an update
/// to the release `latest`: it must have a known version that is outdated
/// (compared without surrounding white space).
pub open spec fn update_available_for(current: Seq<char>, latest: Seq<char>) -> bool {
    current.len() > 0 && outdated(trim(current), trim(latest))
}

/// The status after learning the latest release: `latest` is recorded and
/// the update flag computed from it; nothing changes when it is unknown.
pub open spec fn with_latest(d: DepStatus, latest: Option<String>) -> DepStatus {
    match latest {
        Some(l) => DepStatus {
            latest: Some(l),
            update_available: update_available_for(current_version(d), l@),
            ..d
        },
        None => d,
    }
}

/// Records the latest release of a dependency and whether it is an update.
pub fn apply_latest(dep: &mut DepStatus, latest: Option<String>)
    ensures
        *final(dep) == with_latest(*old(dep), latest),
{
    match latest {
        Some(l) => {
            let current: Vec<char> = match &dep.version {
                Some(v) => chars_of(v.as_str()),
                None => Vec::new(),
            };
            let available = if current.len() == 0 {
                false
            } else {
                let lc = chars_of(l.as_str());
                version_outdated_chars(&trim_chars(&current), &trim_chars(&lc))
            };
            dep.latest = Some(l);
            dep.update_available = available;
        },
        None => {},
    }
}

/// A status entry for a dependency, before the latest release is known.
pub open spec fn status_entry(d: DepStatus, name: Seq<char>, version: Option<Seq<char>>, path: Seq<char>) -> bool {
    &&& d.name@ == name
    &&& opt_view(d.version) == version
    &&& d.path@ == path
    &&& d.latest is None
    &&& !d.update_available
}

/// A status entry for a dependency once the latest release is looked up:
/// the release is recorded when known, and the update flag says whether the
/// installed version is outdated against it.
pub open spec fn checked_entry(d: DepStatus, name: Seq<char>, version: Option<Seq<char>>, path: Seq<char>, latest: Option<Seq<char>>) -> bool {
    &&& d.name@ == name
    &&& opt_view(d.version) == version
    &&& d.path@ == path
    &&& opt_view(d.latest) == latest
    &&& d.update_available == (latest matches Some(l) && update_available_for(
        match version { Some(v) => v, None => Seq::<char>::empty() }, l))
}

fn make_status(name: &str, installed: bool, version: Option<&str>, path: &str) -> (d: DepStatus)
    ensures
        status_entry(d, name@, opt_str_view(version), path@),
        d.installed == installed,
{
    DepStatus {
        name: owned(name),
        installed,
        version: opt_to_owned(version),
        path: owned(path),
        latest: None,
        update_available: false,
    }
}

/// The three runtime dependencies the downloader works with.
pub struct DepManager {
    yt_dlp: YtDlp,
    ffmpeg: FFmpeg,
    deno: Deno,
    auto_update: bool,
}

impl DepManager {
    pub closed spec fn spec_yt_dlp(&self) -> YtDlp {
        self.yt_dlp
    }

    pub closed spec fn spec_ffmpeg(&self) -> FFmpeg {
        self.ffmpeg
    }

    pub closed spec fn spec_deno(&self) -> Deno {
        self.deno
    }

    pub closed spec fn spec_auto_update(&self) -> bool {
        self.auto_update
    }

    /// A manager of the given dependencies.
    pub fn new(yt_dlp: YtDlp, ffmpeg: FFmpeg, deno: Deno, auto_update: bool) -> (m: DepManager)
        ensures
            m.spec_yt_dlp() == yt_dlp,
            m.spec_ffmpeg() == ffmpeg,
            m.spec_deno() == deno,
            m.spec_auto_update() == auto_update,
    {
        DepManager { yt_dlp, ffmpeg, deno, auto_update }
    }

    /// The yt-dlp in use.
    pub fn yt_dlp(&self) -> (y: &YtDlp)
        ensures
            *y == self.spec_yt_dlp(),
    {
        &self.yt_dlp
    }

    /// The ffmpeg in use.
    pub fn ffmpeg(&self) -> (f: &FFmpeg)
        ensures
            *f == self.spec_ffmpeg(),
    {
        &self.ffmpeg
    }

    /// The deno in use.
    pub fn deno(&self) -> (d: &Deno)
        ensures
            *d == self.spec_deno(),
    {
        &self.deno
    }

    /// The status of yt-dlp, ffmpeg and deno, in that order: name, version,
    /// path and whether the executable is on disk (never, for an empty
    /// path); no release information.
    pub fn status(&self) -> (v: Vec<DepStatus>)
        ensures
            v.len() == 3,
            status_entry(v@[0], "yt-dlp"@, self.spec_yt_dlp().spec_version(), self.spec_yt_dlp().spec_binary_path()),
            status_entry(v@[1], "ffmpeg"@, self.spec_ffmpeg().spec_version(), self.spec_ffmpeg().spec_binary_path()),
            status_entry(v@[2], "deno"@, self.spec_deno().spec_version(), self.spec_deno().spec_binary_path()),
            forall|i: int| 0 <= i < 3 ==> (#[trigger] v@[i]).path@.len() == 0 ==> !v@[i].installed,
    {
        let mut v: Vec<DepStatus> = Vec::new();
        v.push(make_status("yt-dlp", self.yt_dlp.is_installed(), self.yt_dlp.version(), self.yt_dlp.binary_path()));
        v.push(make_status("ffmpeg", self.ffmpeg.is_installed(), self.ffmpeg.version(), self.ffmpeg.binary_path()));
        v.push(make_status("deno", self.deno.is_installed(), self.deno.version(), self.deno.binary_path()));
        v
    }

    /// The status of the dependencies with the latest releases of yt-dlp,
    /// ffmpeg and deno recorded, where they are known.
    pub fn status_with_latest(&self, yt_dlp: Option<String>, ffmpeg: Option<String>, deno: Option<String>) -> (v: Vec<DepStatus>)
        ensures
            v.len() == 3,
            checked_entry(v@[0], "yt-dlp"@, self.spec_yt_dlp().spec_version(), self.spec_yt_dlp().spec_binary_path(), opt_view(yt_dlp)),
            checked_entry(v@[1], "ffmpeg"@, self.spec_ffmpeg().spec_version(), self.spec_ffmpeg().spec_binary_path(), opt_view(ffmpeg)),
            checked_entry(v@[2], "deno"@, self.spec_deno().spec_version(), self.spec_deno().spec_binary_path(), opt_view(deno)),
            forall|i: int| 0 <= i < 3 ==> (#[trigger] v@[i]).path@.len() == 0 ==> !v@[i].installed,
    {
        let mut v = self.status();
        let mut a = v.remove(0);
        let mut b = v.remove(0);
        let mut c = v.remove(0);
        apply_latest(&mut a, yt_dlp);
        apply_latest(&mut b, ffmpeg);
        apply_latest(&mut c, deno);
        let mut r: Vec<DepStatus> = Vec::new();
        r.push(a);
        r.push(b);
        r.push(c);
        r
    }
}

// ---------------------------------------------------------------- updates

/// A status entry after an update attempt: the new tool's version and path
/// when one was installed (and then it is installed); otherwise the current
/// tool's version and path.
pub open spec fn update_entry(
    d: DepStatus,
    name: Seq<char>,
    updated: Option<(Option<Seq<char>>, Seq<char>)>,
    current_version: Option<Seq<char>>,
    current_path: Seq<char>,
) -> bool {
    &&& d.name@ == name
    &&& d.latest is None
    &&& !d.update_available
    &&& match updated {
        Some((v, p)) => opt_view(d.version) == v && d.path@ == p && d.installed,
        None => opt_view(d.version) == current_version && d.path@ == current_path,
    }
}

/// How many of the three dependencies were asked for.
pub open spec fn asked_count(a: bool, b: bool, c: bool) -> int {
    (if a { 1int } else { 0int }) + (if b { 1int } else { 0int }) + (if c { 1int } else { 0int })
}

impl DepManager {
    /// The report of an update of the dependencies that were asked for:
    /// yt-dlp, ffmpeg and deno, in that order, each present when asked for
    /// and holding the outcome of its update (the newly installed tool, or
    /// `None` when none was installed). yt-dlp is reported installed either
    /// way; ffmpeg and deno, when not updated, as found on disk (never
/// installed when their path is empty).
    pub fn update_report(&self, yt_dlp: Option<Option<YtDlp>>, ffmpeg: Option<Option<FFmpeg>>, deno: Option<Option<Deno>>) -> (v: Vec<DepStatus>)
        ensures
            v.len() == asked_count(yt_dlp is Some, ffmpeg is Some, deno is Some),
            yt_dlp matches Some(u) ==> update_entry(
                v@[0],
                "yt-dlp"@,
                match u { Some(n) => Some((n.spec_version(), n.spec_binary_path())), None => None },
                self.spec_yt_dlp().spec_version(),
                self.spec_yt_dlp().spec_binary_path(),
            ) && v@[0].installed,
            ffmpeg matches Some(u) ==> update_entry(
                v@[asked_count(yt_dlp is Some, false, false)],
                "ffmpeg"@,
                match u { Some(n) => Some((n.spec_version(), n.spec_binary_path())), None => None },
                self.spec_ffmpeg().spec_version(),
                self.spec_ffmpeg().spec_binary_path(),
            ),
            ffmpeg == Some(None::<FFmpeg>) && self.spec_ffmpeg().spec_binary_path().len() == 0
                ==> !v@[asked_count(yt_dlp is Some, false, false)].installed,
            deno matches Some(u) ==> update_entry(
                v@[asked_count(yt_dlp is Some, ffmpeg is Some, false)],
                "deno"@,
                match u { Some(n) => Some((n.spec_version(), n.spec_binary_path())), None => None },
                self.spec_deno().spec_version(),
                self.spec_deno().spec_binary_path(),
            ),
            deno == Some(None::<Deno>) && self.spec_deno().spec_binary_path().len() == 0
                ==> !v@[asked_count(yt_dlp is Some, ffmpeg is Some, false)].installed,
    {
        let mut v: Vec<DepStatus> = Vec::new();
        match &yt_dlp {
            Some(Some(n)) => v.push(make_status("yt-dlp", true, n.version(), n.binary_path())),
            Some(None) => v.push(make_status("yt-dlp", true, self.yt_dlp.version(), self.yt_dlp.binary_path())),
            None => {},
        }
        let ghost after_y = v@;
        match &ffmpeg {
            Some(Some(n)) => v.push(make_status("ffmpeg", true, n.version(), n.binary_path())),
            Some(None) => v.push(make_status("ffmpeg", self.ffmpeg.is_installed(), self.ffmpeg.version(), self.ffmpeg.binary_path())),
            None => {},
        }
        let ghost after_f = v@;
        match &deno {
            Some(Some(n)) => v.push(make_status("deno", true, n.version(), n.binary_path())),
            Some(None) => v.push(make_status("deno", self.deno.is_installed(), self.deno.version(), self.deno.binary_path())),
            None => {},
        }
        assert(yt_dlp is Some ==> v@[0] == after_y[0]);
        assert(ffmpeg is Some ==> v@[asked_count(yt_dlp is Some, false, false)] == after_f[asked_count(yt_dlp is Some, false, false)]);
        v
    }
}

// ---------------------------------------------------------------- laws

proof fn lemma_less_past_end(a: Seq<nat>, b: Seq<nat>, i: int, n: int)
    requires
        i >= a.len(),
        i >= b.len(),
    ensures
        !numbers_less_from(a, b, i, n),
    decreases n - i,
{
    if i < n {
        lemma_less_past_end(a, b, i + 1, n);
    }
}

proof fn lemma_less_bound_irrelevant(a: Seq<nat>, b: Seq<nat>, i: int, n: int, m: int)
    requires
        n >= a.len(),
        n >= b.len(),
        m >= a.len(),
        m >= b.len(),
    ensures
        numbers_less_from(a, b, i, n) == numbers_less_from(a, b, i, m),
    decreases (if n >= m { n } else { m }) - i,
{
    if i >= a.len() && i >= b.len() {
        lemma_less_past_end(a, b, i, n);
        lemma_less_past_end(a, b, i, m);
    } else {
        lemma_less_bound_irrelevant(a, b, i + 1, n, m);
    }
}

proof fn lemma_less_asymmetric(a: Seq<nat>, b: Seq<nat>, i: int, n: int)
    requires
        numbers_less_from(a, b, i, n),
    ensures
        !numbers_less_from(b, a, i, n),
    decreases n - i,
{
    if i < n && number_at(a, i) == number_at(b, i) {
        lemma_less_asymmetric(a, b, i + 1, n);
    }
}

proof fn lemma_less_transitive(a: Seq<nat>, b: Seq<nat>, c: Seq<nat>, i: int, n: int)
    requires
        numbers_less_from(a, b, i, n),
        numbers_less_from(b, c, i, n),
    ensures
        numbers_less_from(a, c, i, n),
    decreases n - i,
{
    if i < n && number_at(a, i) == number_at(b, i) && number_at(b, i) == number_at(c, i) {
        lemma_less_transitive(a, b, c, i + 1, n);
    }
}

/// The larger of two lengths.
pub open spec fn max_len(a: Seq<nat>, b: Seq<nat>) -> int {
    if a.len() >= b.len() { a.len() as int } else { b.len() as int }
}

/// A version is never outdated against itself.
pub proof fn law_version_not_outdated_against_itself(v: Seq<char>)
    ensures
        !outdated(v, v),
{
}

/// Between two numeric versions, at most one is outdated against the other.
pub proof fn law_numeric_outdated_asymmetric(a: Seq<char>, b: Seq<char>)
    requires
        version_numbers(normalized_version(a)) is Some,
        version_numbers(normalized_version(b)) is Some,
        outdated(a, b),
    ensures
        !outdated(b, a),
{
    let x = version_numbers(normalized_version(a)).unwrap();
    let y = version_numbers(normalized_version(b)).unwrap();
    lemma_less_bound_irrelevant(y, x, 0, max_len(x, y), max_len(y, x));
    lemma_less_asymmetric(x, y, 0, max_len(x, y));
}

/// Among numeric versions, being outdated is transitive: an installed
/// version older than one that is older than the release is older than the
/// release.
pub proof fn law_numeric_outdated_transitive(a: Seq<char>, b: Seq<char>, c: Seq<char>)
    requires
        version_numbers(normalized_version(a)) is Some,
        version_numbers(normalized_version(b)) is Some,
        version_numbers(normalized_version(c)) is Some,
        outdated(a, b),
        outdated(b, c),
    ensures
        outdated(a, c),
{
    let x = version_numbers(normalized_version(a)).unwrap();
    let y = version_numbers(normalized_version(b)).unwrap();
    let z = version_numbers(normalized_version(c)).unwrap();
    let n = if max_len(x, y) >= z.len() { max_len(x, y) } else { z.len() as int };
    lemma_less_bound_irrelevant(x, y, 0, max_len(x, y), n);
    lemma_less_bound_irrelevant(y, z, 0, max_len(y, z), n);
    lemma_less_bound_irrelevant(x, z, 0, max_len(x, z), n);
    lemma_less_transitive(x, y, z, 0, n);
    if normalized_version(a) == normalized_version(c) {
        lemma_less_asymmetric(x, y, 0, n);
    }
}


// ---------------------------------------------------------------- version texts

/// The text of a version with numbers `ns`: each number in decimal, the
/// numbers separated by dots.
pub open spec fn dotted(ns: Seq<nat>) -> Seq<char>
    decreases ns.len(),
{
    if ns.len() == 0 {
        Seq::empty()
    } else if ns.len() == 1 {
        decimal(ns[0])
    } else {
        dotted(ns.drop_last()) + seq!['.'] + decimal(ns.last())
    }
}

/// Numbers that make a version: one to four of them, each fitting in a
/// `u64`.
pub open spec fn version_numbers_ok(ns: Seq<nat>) -> bool {
    1 <= ns.len() <= 4 && forall|i: int| 0 <= i < ns.len() ==> #[trigger] ns[i] <= u64::MAX
}

/// Whether position `i` is the first at which `a` and `b` differ (both
/// padded with zeros) and `a` is smaller there.
pub open spec fn first_difference_smaller(a: Seq<nat>, b: Seq<nat>, i: int) -> bool {
    &&& 0 <= i
    &&& forall|j: int| 0 <= j < i ==> #[trigger] number_at(a, j) == number_at(b, j)
    &&& number_at(a, i) < number_at(b, i)
}

proof fn lemma_split_append_plain(p: Seq<char>, y: Seq<char>, sep: char)
    requires
        forall|i: int| 0 <= i < y.len() ==> #[trigger] y[i] != sep,
    ensures
        split_on(p + y, sep) == split_on(p, sep).update(split_on(p, sep).len() - 1, split_on(p, sep).last() + y),
    decreases y.len(),
{
    crate::text::lemma_split_on_nonempty(p, sep);
    let sp = split_on(p, sep);
    if y.len() == 0 {
        assert(p + y =~= p);
        assert(sp.last() + y =~= sp.last());
        assert(sp.update(sp.len() - 1, sp.last()) =~= sp);
    } else {
        let y2 = y.drop_last();
        lemma_split_append_plain(p, y2, sep);
        assert((p + y).drop_last() =~= p + y2);
        assert((p + y).last() == y.last());
        assert(y.last() != sep);
        let s2 = split_on(p + y2, sep);
        assert(s2 == sp.update(sp.len() - 1, sp.last() + y2));
        assert(s2.last() == sp.last() + y2);
        assert((sp.last() + y2).push(y.last()) =~= sp.last() + y);
        assert(split_on(p + y, sep) == s2.update(s2.len() - 1, s2.last().push(y.last())));
        assert(s2.update(s2.len() - 1, s2.last().push(y.last())) =~= sp.update(sp.len() - 1, sp.last() + y));
    }
}

proof fn lemma_decimal_has_no_dot(n: nat)
    ensures
        forall|i: int| 0 <= i < decimal(n).len() ==> #[trigger] decimal(n)[i] != '.',
        forall|i: int| 0 <= i < decimal(n).len() ==> is_digit(#[trigger] decimal(n)[i]),
        decimal(n).len() > 0,
{
    lemma_decimal_value(n);
    assert forall|i: int| 0 <= i < decimal(n).len() implies #[trigger] decimal(n)[i] != '.' by {
        assert(is_digit(decimal(n)[i]));
    }
}

proof fn lemma_split_dotted(ns: Seq<nat>)
    requires
        ns.len() >= 1,
    ensures
        split_dots(dotted(ns)) == ns.map_values(|n: nat| decimal(n)),
    decreases ns.len(),
{
    if ns.len() == 1 {
        lemma_decimal_has_no_dot(ns[0]);
        let e = Seq::<char>::empty();
        lemma_split_append_plain(e, decimal(ns[0]), '.');
        assert(e + decimal(ns[0]) =~= decimal(ns[0]));
        assert(split_on(e, '.') == seq![e]);
        assert(e + decimal(ns[0]) =~= decimal(ns[0]));
        assert(ns.map_values(|n: nat| decimal(n)) =~= seq![decimal(ns[0])]);
    } else {
        let init = ns.drop_last();
        lemma_split_dotted(init);
        let d = dotted(init);
        let d2 = d + seq!['.'];
        assert(d2.drop_last() =~= d);
        assert(d2.last() == '.');
        assert(split_on(d2, '.') == split_on(d, '.').push(Seq::<char>::empty()));
        lemma_decimal_has_no_dot(ns.last());
        lemma_split_append_plain(d2, decimal(ns.last()), '.');
        assert(dotted(ns) == d2 + decimal(ns.last()));
        let sd = split_on(d, '.');
        assert(Seq::<char>::empty() + decimal(ns.last()) =~= decimal(ns.last()));
        assert(sd.push(Seq::<char>::empty()).update(sd.len() as int, decimal(ns.last())) =~= sd.push(decimal(ns.last())));
        assert(sd =~= init.map_values(|n: nat| decimal(n)));
        assert(sd.push(decimal(ns.last())) =~= ns.map_values(|n: nat| decimal(n)));
    }
}

proof fn lemma_leading_digits_all(s: Seq<char>)
    requires
        forall|i: int| 0 <= i < s.len() ==> is_digit(#[trigger] s[i]),
    ensures
        leading_digits(s) == s,
    decreases s.len(),
{
    if s.len() > 0 {
        let t = s.drop_first();
        assert forall|i: int| 0 <= i < t.len() implies is_digit(#[trigger] t[i]) by {
            assert(t[i] == s[i + 1]);
        }
        lemma_leading_digits_all(t);
        assert(is_digit(s[0]));
        assert(seq![s[0]] + t =~= s);
    }
}

proof fn lemma_segment_of_decimal(n: nat)
    requires
        n <= u64::MAX,
    ensures
        segment_number(decimal(n)) == Some(n),
{
    lemma_decimal_has_no_dot(n);
    let d = decimal(n);
    assert(is_digit(d[0]));
    assert(skip_non_digits(d) == d);
    lemma_leading_digits_all(d);
    lemma_parse_decimal(n, u64::MAX as nat);
}

proof fn lemma_dotted_chars(ns: Seq<nat>)
    requires
        ns.len() >= 1,
    ensures
        dotted(ns).len() > 0,
        is_digit(dotted(ns)[0]),
        forall|i: int| 0 <= i < dotted(ns).len() ==> is_digit(#[trigger] dotted(ns)[i]) || dotted(ns)[i] == '.',
    decreases ns.len(),
{
    if ns.len() == 1 {
        lemma_decimal_has_no_dot(ns[0]);
    } else {
        let init = ns.drop_last();
        lemma_dotted_chars(init);
        lemma_decimal_has_no_dot(ns.last());
        let d = dotted(init);
        let e = decimal(ns.last());
        assert(dotted(ns) == d + seq!['.'] + e);
        assert forall|i: int| 0 <= i < dotted(ns).len() implies is_digit(#[trigger] dotted(ns)[i]) || dotted(ns)[i] == '.' by {
            if i < d.len() {
                assert(dotted(ns)[i] == d[i]);
            } else if i > d.len() {
                assert(dotted(ns)[i] == e[i - d.len() - 1]);
            }
        }
    }
}

proof fn lemma_leading_token_all(s: Seq<char>)
    requires
        forall|i: int| 0 <= i < s.len() ==> !is_whitespace(#[trigger] s[i]),
    ensures
        leading_token(s) == s,
    decreases s.len(),
{
    if s.len() > 0 {
        let t = s.drop_first();
        assert forall|i: int| 0 <= i < t.len() implies !is_whitespace(#[trigger] t[i]) by {
            assert(t[i] == s[i + 1]);
        }
        lemma_leading_token_all(t);
        assert(!is_whitespace(s[0]));
        assert(seq![s[0]] + t =~= s);
    }
}

proof fn lemma_dotted_normalized(ns: Seq<nat>)
    requires
        ns.len() >= 1,
    ensures
        normalized_version(dotted(ns)) == dotted(ns),
{
    let s = dotted(ns);
    lemma_dotted_chars(ns);
    assert(strip_deno_prefix(s) == s);
    assert(strip_v_prefix(s) == s);
    assert(skip_whitespace(s) == s);
    assert forall|i: int| 0 <= i < s.len() implies !is_whitespace(#[trigger] s[i]) by {
        assert(is_digit(s[i]) || s[i] == '.');
    }
    lemma_leading_token_all(s);
}

proof fn lemma_less_at_first_difference(a: Seq<nat>, b: Seq<nat>, k: int, i: int, n: int)
    requires
        0 <= k <= i < n,
        forall|j: int| k <= j < i ==> #[trigger] number_at(a, j) == number_at(b, j),
        number_at(a, i) < number_at(b, i),
    ensures
        numbers_less_from(a, b, k, n),
    decreases i - k,
{
    if k < i {
        assert(number_at(a, k) == number_at(b, k));
        lemma_less_at_first_difference(a, b, k + 1, i, n);
    }
}

proof fn lemma_first_difference_of_less(a: Seq<nat>, b: Seq<nat>, k: int, n: int) -> (i: int)
    requires
        0 <= k,
        numbers_less_from(a, b, k, n),
    ensures
        k <= i < n,
        forall|j: int| k <= j < i ==> #[trigger] number_at(a, j) == number_at(b, j),
        number_at(a, i) < number_at(b, i),
    decreases n - k,
{
    if number_at(a, k) != number_at(b, k) {
        k
    } else {
        let i = lemma_first_difference_of_less(a, b, k + 1, n);
        assert forall|j: int| k <= j < i implies #[trigger] number_at(a, j) == number_at(b, j) by {
            if j > k {
                assert(k + 1 <= j < i);
            }
        }
        i
    }
}

/// The text of a version reads back as its numbers: every one of its one
/// to four dot-separated numbers counts, in order.
pub proof fn law_version_text_reads_back(ns: Seq<nat>)
    requires
        version_numbers_ok(ns),
    ensures
        normalized_version(dotted(ns)) == dotted(ns),
        version_numbers(dotted(ns)) == Some(ns),
{
    lemma_dotted_normalized(ns);
    lemma_split_dotted(ns);
    let parts = split_dots(dotted(ns));
    assert forall|i: int| 0 <= i < parts.len() implies (#[trigger] segment_number(parts[i])) == Some(ns[i]) by {
        assert(parts[i] == decimal(ns[i]));
        lemma_segment_of_decimal(ns[i]);
    }
    assert(all_numeric(parts));
    assert(parts.map_values(|p: Seq<char>| segment_number(p).unwrap()) =~= ns);
}

/// An installed version is outdated against a release exactly when, at the
/// first of their numbers (padded with zeros) where they differ, the
/// installed one is smaller; so a newer last number ("6.1.1" against
/// "6.1.2") is an update, and an older one is not.
pub proof fn law_outdated_at_first_difference(a: Seq<nat>, b: Seq<nat>)
    requires
        version_numbers_ok(a),
        version_numbers_ok(b),
    ensures
        outdated(dotted(a), dotted(b)) <==> exists|i: int| #[trigger] first_difference_smaller(a, b, i),
{
    law_version_text_reads_back(a);
    law_version_text_reads_back(b);
    let n = max_len(a, b);
    if exists|i: int| #[trigger] first_difference_smaller(a, b, i) {
        let i = choose|i: int| #[trigger] first_difference_smaller(a, b, i);
        assert(number_at(b, i) > 0);
        assert(i < b.len());
        assert forall|j: int| 0 <= j < i implies #[trigger] number_at(a, j) == number_at(b, j) by {}
        lemma_less_at_first_difference(a, b, 0, i, n);
        if dotted(a) == dotted(b) {
            assert(a == b);
            assert(false);
        }
        assert(outdated(dotted(a), dotted(b)));
    }
    if outdated(dotted(a), dotted(b)) {
        assert(numbers_less(a, b));
        let i = lemma_first_difference_of_less(a, b, 0, n);
        assert(first_difference_smaller(a, b, i));
    }
}

} // verus!
