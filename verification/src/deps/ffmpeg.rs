//! The ffmpeg and ffprobe executables.

use vstd::prelude::*;
use crate::deps::yt_dlp::{opt_as_str, opt_str_view, opt_to_owned, opt_view};
use crate::extractors::youtube::text_or;
use crate::text::{chars_of, lines, lines_of, owned, string_from_chars, str_eq, words, words_of};
use crate::utils::fs::path_exists;

verus! {

/// An installed (or expected) ffmpeg with its ffprobe.
pub struct FFmpeg {
    binary_path: String,
    ffprobe_binary_path: String,
    version: Option<String>,
}

impl FFmpeg {
    pub closed spec fn spec_binary_path(&self) -> Seq<char> {
        self.binary_path@
    }

    pub closed spec fn spec_ffprobe_path(&self) -> Seq<char> {
        self.ffprobe_binary_path@
    }

    pub closed spec fn spec_version(&self) -> Option<Seq<char>> {
        opt_view(self.version)
    }

    /// An ffmpeg at `binary_path` with its ffprobe at `ffprobe_path`.
    pub fn new(binary_path: &str, ffprobe_path: &str, version: Option<&str>) -> (f: FFmpeg)
        ensures
            f.spec_binary_path() == binary_path@,
            f.spec_ffprobe_path() == ffprobe_path@,
            f.spec_version() == opt_str_view(version),
    {
        FFmpeg {
            binary_path: owned(binary_path),
            ffprobe_binary_path: owned(ffprobe_path),
            version: opt_to_owned(version),
        }
    }

    /// Where the ffmpeg executable is.
    pub fn binary_path(&self) -> (s: &str)
        ensures
            s@ == self.spec_binary_path(),
    {
        self.binary_path.as_str()
    }

    /// Where the ffprobe executable is.
    pub fn ffprobe_path(&self) -> (s: &str)
        ensures
            s@ == self.spec_ffprobe_path(),
    {
        self.ffprobe_binary_path.as_str()
    }

    /// The version ffmpeg reported, if it was asked.
    pub fn version(&self) -> (v: Option<&str>)
        ensures
            opt_str_view(v) == self.spec_version(),
    {
        opt_as_str(&self.version)
    }

    /// Whether the ffmpeg executable exists on disk. An empty path names no file.
    pub fn is_installed(&self) -> (r: bool)
        ensures
            self.spec_binary_path().len() == 0 ==> !r,
    {
        if self.binary_path.as_str().is_empty() {
            false
        } else {
            path_exists(self.binary_path.as_str())
        }
    }

    /// Whether the ffprobe executable exists on disk. An empty path names no file.
    pub fn ffprobe_is_installed(&self) -> (r: bool)
        ensures
            self.spec_ffprobe_path().len() == 0 ==> !r,
    {
        if self.ffprobe_binary_path.as_str().is_empty() {
            false
        } else {
            path_exists(self.ffprobe_binary_path.as_str())
        }
    }

    /// The stand-in for an ffmpeg that could not be installed: empty paths
    /// and no version.
    pub fn unavailable() -> (f: FFmpeg)
        ensures
            f.spec_binary_path() == Seq::<char>::empty(),
            f.spec_ffprobe_path() == Seq::<char>::empty(),
            f.spec_version() is None,
    {
        FFmpeg { binary_path: String::new(), ffprobe_binary_path: String::new(), version: None }
    }
}


/// The version that `ffmpeg -version` printed: the third word of its first
/// line, or `unknown`.
pub open spec fn ffmpeg_reported_version(stdout: Seq<char>) -> Seq<char> {
    let ls = lines(stdout);
    if ls.len() > 0 && words(ls[0]).len() > 2 { words(ls[0])[2] } else { "unknown"@ }
}

/// The version that `ffmpeg -version` printed (see
/// [`ffmpeg_reported_version`]).
pub fn reported_version(stdout: &str) -> (v: String)
    ensures
        v@ == ffmpeg_reported_version(stdout@),
{
    let ls = lines_of(&chars_of(stdout));
    if ls.len() > 0 {
        let ws = words_of(&ls[0]);
        if ws.len() > 2 {
            return string_from_chars(&ws[2]);
        }
    }
    owned("unknown")
}

/// Whether ffmpeg is fetched when installing into a directory: when it is
/// missing, when the one there cannot be run (`reported` is `None`), or,
/// on a forced refresh, when it reports a version other than the default.
pub open spec fn ffmpeg_fetch_needed(present: bool, reported: Option<Seq<char>>, force: bool) -> bool {
    !present || match reported {
        Some(v) => force && v != "latest"@,
        None => true,
    }
}

/// Whether ffmpeg is fetched when installing (see [`ffmpeg_fetch_needed`]).
pub fn should_fetch_ffmpeg(present: bool, reported: Option<&str>, force: bool) -> (b: bool)
    ensures
        b == ffmpeg_fetch_needed(present, opt_str_view(reported), force),
{
    if !present {
        return true;
    }
    match reported {
        Some(v) => force && !str_eq(v, "latest"),
        None => true,
    }
}

/// Whether ffprobe is fetched when installing: when it is missing or on a
/// forced refresh.
pub fn should_fetch_ffprobe(present: bool, force: bool) -> (b: bool)
    ensures
        b == (!present || force),
{
    !present || force
}

/// Whether an installed ffmpeg of version `current` is replaced by the
/// release `latest`: when the two differ (an unknown version counts as
/// empty).
pub fn needs_update(current: Option<&str>, latest: &str) -> (b: bool)
    ensures
        b == (match opt_str_view(current) {
            Some(c) => c,
            None => Seq::<char>::empty(),
        } != latest@),
{
    match current {
        Some(c) => !str_eq(c, latest),
        None => {
            proof {
                reveal_strlit("");
                assert(""@ =~= Seq::<char>::empty());
            }
            !str_eq("", latest)
        },
    }
}

} // verus!
