//! The deno executable, the JavaScript runtime yt-dlp is run with.

use vstd::prelude::*;
use crate::deps::yt_dlp::{opt_as_str, opt_str_view, opt_to_owned, opt_view};
use crate::deps::strip_v_prefix;
use crate::deps::versions::strip_v;
use crate::text::{chars_of, lines, lines_of, owned, string_from_chars, str_eq};
use crate::utils::fs::path_exists;

verus! {

/// An installed (or expected) deno.
pub struct Deno {
    binary_path: String,
    version: Option<String>,
}

impl Deno {
    pub closed spec fn spec_binary_path(&self) -> Seq<char> {
        self.binary_path@
    }

    pub closed spec fn spec_version(&self) -> Option<Seq<char>> {
        opt_view(self.version)
    }

    /// A deno at `binary_path`.
    pub fn new(binary_path: &str, version: Option<&str>) -> (d: Deno)
        ensures
            d.spec_binary_path() == binary_path@,
            d.spec_version() == opt_str_view(version),
    {
        Deno { binary_path: owned(binary_path), version: opt_to_owned(version) }
    }

    /// Where the executable is.
    pub fn binary_path(&self) -> (s: &str)
        ensures
            s@ == self.spec_binary_path(),
    {
        self.binary_path.as_str()
    }

    /// The version deno reported, if it was asked.
    pub fn version(&self) -> (v: Option<&str>)
        ensures
            opt_str_view(v) == self.spec_version(),
    {
        opt_as_str(&self.version)
    }

    /// Whether the executable exists on disk. An empty path names no file.
    pub fn is_installed(&self) -> (r: bool)
        ensures
            self.spec_binary_path().len() == 0 ==> !r,
    {
        if self.binary_path.as_str().is_empty() {
            false
        } else {
            path_exists(self.binary_path.as_str())
        }
    }

    /// The stand-in for a deno that could not be installed: an empty path
    /// and no version.
    pub fn unavailable() -> (d: Deno)
        ensures
            d.spec_binary_path() == Seq::<char>::empty(),
            d.spec_version() is None,
    {
        Deno { binary_path: String::new(), version: None }
    }
}


/// The version that `deno --version` printed: its first line, or
/// `unknown` when it printed nothing.
pub open spec fn deno_reported_version(stdout: Seq<char>) -> Seq<char> {
    let ls = lines(stdout);
    if ls.len() > 0 { ls[0] } else { "unknown"@ }
}

/// The version that `deno --version` printed (see
/// [`deno_reported_version`]).
pub fn reported_version(stdout: &str) -> (v: String)
    ensures
        v@ == deno_reported_version(stdout@),
{
    let ls = lines_of(&chars_of(stdout));
    if ls.len() > 0 {
        string_from_chars(&ls[0])
    } else {
        owned("unknown")
    }
}

/// Whether an installed deno of version `current` is replaced by the
/// release `latest`: when they differ once leading `v`s are removed (an
/// unknown version counts as empty).
pub fn needs_update(current: Option<&str>, latest: &str) -> (b: bool)
    ensures
        b == (strip_v_prefix(match opt_str_view(current) {
            Some(c) => c,
            None => Seq::<char>::empty(),
        }) != strip_v_prefix(latest@)),
{
    let c = match current {
        Some(c) => c,
        None => {
            proof {
                reveal_strlit("");
                assert(""@ =~= Seq::<char>::empty());
            }
            ""
        },
    };
    assert(c@ == match opt_str_view(current) {
        Some(c) => c,
        None => Seq::<char>::empty(),
    });
    let a = strip_v(c);
    let b = strip_v(latest);
    !str_eq(a.as_str(), b.as_str())
}

} // verus!
