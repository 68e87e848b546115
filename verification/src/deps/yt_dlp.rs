//! The yt-dlp executable: where it is, which version and channel it has,
//! and the JavaScript runtime handed to every invocation.

use vstd::prelude::*;
use crate::deps::strip_v_prefix;
use crate::deps::versions::strip_v;
use crate::error::SourisError;
use crate::text::{chars_of, concat2, owned, string_from_chars, str_eq, trim, trim_chars};
use crate::utils::fs::path_exists;

verus! {

/// An installed (or expected) yt-dlp.
pub struct YtDlp {
    binary_path: String,
    version: Option<String>,
    channel: String,
    deno_path: Option<String>,
}

/// The text of an optional string.
pub open spec fn opt_view(o: Option<String>) -> Option<Seq<char>> {
    match o {
        Some(s) => Some(s@),
        None => None,
    }
}

/// The text of an optional string slice.
pub open spec fn opt_str_view(o: Option<&str>) -> Option<Seq<char>> {
    match o {
        Some(s) => Some(s@),
        None => None,
    }
}

/// A borrowed view of an optional string.
pub fn opt_as_str(o: &Option<String>) -> (r: Option<&str>)
    ensures
        opt_str_view(r) == opt_view(*o),
{
    match o {
        Some(s) => Some(s.as_str()),
        None => None,
    }
}

/// An owned copy of an optional string slice.
pub fn opt_to_owned(o: Option<&str>) -> (r: Option<String>)
    ensures
        opt_view(r) == opt_str_view(o),
{
    match o {
        Some(s) => Some(owned(s)),
        None => None,
    }
}

/// The arguments that hand deno to yt-dlp as its JavaScript runtime:
/// `--js-runtimes deno:<path>` when a deno path is known, none otherwise.
pub open spec fn js_runtime_arguments(deno: Option<Seq<char>>) -> Seq<Seq<char>> {
    match deno {
        Some(d) => seq!["--js-runtimes"@, "deno:"@ + d],
        None => Seq::empty(),
    }
}

/// The texts of a vector of strings.
pub open spec fn strings_view(v: Seq<String>) -> Seq<Seq<char>> {
    v.map_values(|s: String| s@)
}

/// The arguments that start every yt-dlp command line.
pub fn js_runtime_args(deno: Option<&str>) -> (args: Vec<String>)
    ensures
        strings_view(args@) == js_runtime_arguments(opt_str_view(deno)),
{
    let mut args: Vec<String> = Vec::new();
    match deno {
        Some(d) => {
            args.push(owned("--js-runtimes"));
            args.push(concat2("deno:", d));
            assert(strings_view(args@) =~= js_runtime_arguments(opt_str_view(deno)));
        },
        None => {
            assert(strings_view(args@) =~= js_runtime_arguments(opt_str_view(deno)));
        },
    }
    args
}

impl YtDlp {
    pub closed spec fn spec_binary_path(&self) -> Seq<char> {
        self.binary_path@
    }

    pub closed spec fn spec_version(&self) -> Option<Seq<char>> {
        opt_view(self.version)
    }

    pub closed spec fn spec_channel(&self) -> Seq<char> {
        self.channel@
    }

    pub closed spec fn spec_deno_path(&self) -> Option<Seq<char>> {
        opt_view(self.deno_path)
    }

    /// A yt-dlp at `binary_path`, of `version`, following `channel`, run
    /// with the deno at `deno_path` when there is one.
    pub fn new(binary_path: &str, version: Option<&str>, channel: &str, deno_path: Option<&str>) -> (y: YtDlp)
        ensures
            y.spec_binary_path() == binary_path@,
            y.spec_version() == opt_str_view(version),
            y.spec_channel() == channel@,
            y.spec_deno_path() == opt_str_view(deno_path),
    {
        YtDlp {
            binary_path: owned(binary_path),
            version: opt_to_owned(version),
            channel: owned(channel),
            deno_path: opt_to_owned(deno_path),
        }
    }

    /// Where the executable is.
    pub fn binary_path(&self) -> (s: &str)
        ensures
            s@ == self.spec_binary_path(),
    {
        self.binary_path.as_str()
    }

    /// The version the executable reported, if it was asked.
    pub fn version(&self) -> (v: Option<&str>)
        ensures
            opt_str_view(v) == self.spec_version(),
    {
        opt_as_str(&self.version)
    }

    /// The release channel it follows.
    pub fn channel(&self) -> (s: &str)
        ensures
            s@ == self.spec_channel(),
    {
        self.channel.as_str()
    }

    /// Where the deno runtime it is run with is, if any.
    pub fn deno_path(&self) -> (d: Option<&str>)
        ensures
            opt_str_view(d) == self.spec_deno_path(),
    {
        opt_as_str(&self.deno_path)
    }

    /// Whether the executable exists on disk. An empty path names no file.
    pub fn is_installed(&self) -> (r: bool)
        ensures
            self.spec_binary_path().len() == 0 ==> !r,
    {
        if self.binary_path.as_str().is_empty() {
            false
        } else {
            path_exists(self.binary_path.as_str())
        }
    }

    /// The arguments that start every command line of this yt-dlp.
    pub fn command_args(&self) -> (args: Vec<String>)
        ensures
            strings_view(args@) == js_runtime_arguments(self.spec_deno_path()),
    {
        js_runtime_args(self.deno_path())
    }
}


/// Whether an installed yt-dlp of version `current` should be replaced by
/// the release `latest`: always when its version is unknown, otherwise when
/// the two differ once their leading `v`s are removed.
pub open spec fn yt_dlp_update_needed(current: Option<Seq<char>>, latest: Seq<char>) -> bool {
    match current {
        Some(c) => strip_v_prefix(c) != strip_v_prefix(latest),
        None => true,
    }
}

/// Whether an installed yt-dlp of version `current` should be replaced by
/// the release `latest` (see [`yt_dlp_update_needed`]).
pub fn needs_update(current: Option<&str>, latest: &str) -> (b: bool)
    ensures
        b == yt_dlp_update_needed(opt_str_view(current), latest@),
{
    match current {
        Some(c) => {
            let a = strip_v(c);
            let b = strip_v(latest);
            !str_eq(a.as_str(), b.as_str())
        },
        None => true,
    }
}

/// The version that `yt-dlp --version` printed: its output, trimmed; a
/// `DependencyNotFound` error when it printed nothing but white space.
pub fn reported_version(stdout: &str) -> (r: Result<String, SourisError>)
    ensures
        trim(stdout@).len() > 0 ==> (r matches Ok(v) && v@ == trim(stdout@)),
        trim(stdout@).len() == 0 ==> (r matches Err(SourisError::DependencyNotFound { name }) && name@ == "yt-dlp"@),
{
    let t = trim_chars(&chars_of(stdout));
    if t.len() == 0 {
        Err(SourisError::DependencyNotFound { name: owned("yt-dlp") })
    } else {
        Ok(string_from_chars(&t))
    }
}

} // verus!
