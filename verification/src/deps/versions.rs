//! The versions of the runtime dependencies installed by default, and how
//! the latest release of a dependency is looked up and cached.

use vstd::prelude::*;
use crate::deps::strip_v_prefix;
use crate::error::SourisError;
use crate::text::{chars_of, concat2, concat3, owned, replace_all, replace_chars, string_from_chars, trim, trim_chars};

verus! {

/// The ffmpeg version installed by default: the latest release.
pub fn default_ffmpeg_version() -> (s: String)
    ensures
        s@ == "latest"@,
{
    owned("latest")
}

/// The deno version installed by default: the latest release.
pub fn default_deno_version() -> (s: String)
    ensures
        s@ == "latest"@,
{
    owned("latest")
}

/// The yt-dlp channel installed by default: stable.
pub fn default_yt_dlp_channel() -> (s: String)
    ensures
        s@ == "stable"@,
{
    owned("stable")
}


/// `s` without its leading `v`s (see [`strip_v_prefix`]).
pub fn strip_v(s: &str) -> (r: String)
    ensures
        r@ == strip_v_prefix(s@),
{
    let cs = chars_of(s);
    let mut i: usize = 0;
    assert(s@.subrange(0, s@.len() as int) =~= s@);
    while i < cs.len() && cs[i] == 'v'
        invariant
            i <= cs.len(),
            cs@ == s@,
            strip_v_prefix(s@) == strip_v_prefix(s@.subrange(i as int, s@.len() as int)),
        decreases cs.len() - i,
    {
        assert(s@.subrange(i as int, s@.len() as int).drop_first() =~= s@.subrange(i + 1, s@.len() as int));
        i = i + 1;
    }
    assert(s@.subrange(0, s@.len() as int) =~= s@);
    string_from_chars(&crate::text::slice_chars(&cs, i, cs.len()))
}

/// The GitHub API address of the latest release of `repo` (`owner/name`).
pub fn latest_release_url(repo: &str) -> (u: String)
    ensures
        u@ == "https://api.github.com/repos/"@ + repo@ + "/releases/latest"@,
{
    concat3("https://api.github.com/repos/", repo, "/releases/latest")
}

/// The name of the file that caches the latest version of `repo`: the
/// repository with `/` written `-`, then `-version.txt`.
pub fn version_cache_file_name(repo: &str) -> (n: String)
    ensures
        n@ == replace_all(repo@, "/"@, "-"@) + "-version.txt"@,
{
    let key = replace_chars(&chars_of(repo), &chars_of("/"), &chars_of("-"));
    let k = string_from_chars(&key);
    concat2(k.as_str(), "-version.txt")
}

/// How long a cached version is trusted, in seconds (a day).
pub const VERSION_CACHE_SECONDS: u64 = 86400;

/// The cached latest version, when the cache file is younger than a day
/// and holds more than white space: its content, trimmed. `age` is how
/// long ago the file was written, when that is known.
pub fn cached_version(content: &str, age: Option<u64>) -> (r: Option<String>)
    ensures
        match age {
            Some(a) => if a < VERSION_CACHE_SECONDS && trim(content@).len() > 0 {
                r matches Some(v) && v@ == trim(content@)
            } else {
                r is None
            },
            None => r is None,
        },
{
    match age {
        Some(a) => {
            if a < VERSION_CACHE_SECONDS {
                let t = trim_chars(&chars_of(content));
                if t.len() > 0 {
                    return Some(string_from_chars(&t));
                }
            }
            None
        },
        None => None,
    }
}

/// The version of a release from its `tag_name`: the tag without its
/// leading `v`s; an update error for `name` when the answer has no tag.
pub fn release_version(tag_name: Option<&str>, name: &str) -> (r: Result<String, SourisError>)
    ensures
        tag_name matches Some(t) ==> (r matches Ok(v) && v@ == strip_v_prefix(t@)),
        tag_name is None ==> (r matches Err(SourisError::DependencyUpdateFailed { name: n, reason })
            && n@ == name@ && reason@ == "No tag_name in response"@),
{
    match tag_name {
        Some(t) => Ok(strip_v(t)),
        None => Err(SourisError::DependencyUpdateFailed {
            name: owned(name),
            reason: owned("No tag_name in response"),
        }),
    }
}

} // verus!
