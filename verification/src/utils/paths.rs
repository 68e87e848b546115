//! Default directories: where downloads go by default, and which download
//! directories are the legacy default.

use vstd::prelude::*;
use crate::deps::platform::data_dir;
use crate::text::owned;
use crate::deps::yt_dlp::opt_as_str;
use crate::deps::yt_dlp::opt_str_view;
use crate::utils::fs::{join_step, joins_plainly, has_component, is_plain_component, is_plain_name, join_path, normalize_path, path_ends_with, relative_name, same_path};

verus! {

/// This user's download folder.
///
/// Calls `dirs::download_dir`, which reads the environment and, on Linux,
/// the user-dirs settings file; nothing is stated of the result.
#[verifier::external_body]
fn user_download_dir() -> Option<String> {
    dirs::download_dir().map(|p| p.to_string_lossy().into_owned())
}

/// This user's home directory.
///
/// Calls `dirs::home_dir`, which reads the environment; nothing is stated
/// of the result.
#[verifier::external_body]
fn user_home_dir() -> Option<String> {
    dirs::home_dir().map(|p| p.to_string_lossy().into_owned())
}

/// Whether `r` is the default download directory for a user whose download
/// folder is `download`, whose home is `home` and whose working directory
/// is `cwd`: the download folder, else `Downloads` in the home directory,
/// else the working directory (`.` when it is not known).
pub open spec fn is_default_download_dir(
    download: Option<Seq<char>>,
    home: Option<Seq<char>>,
    cwd: Option<Seq<char>>,
    r: Seq<char>,
) -> bool {
    match download {
        Some(d) => r == d,
        None => match home {
            Some(h) => join_step(h, "Downloads"@, r),
            None => match cwd {
                Some(c) => r == c,
                None => r == "."@,
            },
        },
    }
}

/// The default download directory for a user whose download folder is
/// `download`, whose home is `home` and whose working directory is `cwd`
/// (see [`is_default_download_dir`]).
pub fn default_download_dir_in(download: Option<&str>, home: Option<&str>, cwd: Option<&str>) -> (r: String)
    ensures
        is_default_download_dir(opt_str_view(download), opt_str_view(home), opt_str_view(cwd), r@),
{
    match download {
        Some(d) => owned(d),
        None => match home {
            Some(h) => {
                proof {
                    reveal_strlit("Downloads");
                    assert(joins_plainly("Downloads"@)) by {
                        let n = "Downloads"@;
                        assert forall|i: int| 0 <= i < n.len() implies (#[trigger] n[i]) != '/' && n[i] != ':' by {
                            assert(0 <= i < 9);
                        }
                    }
                }
                join_path(h, "Downloads")
            },
            None => match cwd {
                Some(c) => owned(c),
                None => owned("."),
            },
        },
    }
}

/// The default download directory of this user: the system download
/// folder, else `Downloads` in the home directory, else the working
/// directory, written `.`. Which of these the system has is read from the
/// environment.
pub fn default_download_dir() -> String {
    let download = user_download_dir();
    let home = user_home_dir();
    default_download_dir_in(opt_as_str(&download), opt_as_str(&home), None)
}

/// Whether `path` is a download directory that older versions used by
/// default: `downloads` or `./downloads` relative to the working
/// directory, or `downloads` under the data directory `data_dir`.
///
/// The paths are compared as `std::path::Path` compares them, which
/// depends on the platform's separators; the contract states the two
/// relative spellings, and that a legacy directory always has `downloads`
/// as a component of its text. Which spellings under `data_dir` count is
/// left unsaid.
pub fn is_legacy_download_dir_in(path: &str, data_dir: Option<&str>) -> (r: bool)
    ensures
        path@ == "downloads"@ || path@ == "./downloads"@ ==> r,
        r ==> has_component(path@, "downloads"@),
{
    proof {
        reveal_strlit("downloads");
        reveal_strlit("./downloads");
        reveal_strlit("./");
        reveal_strlit(".");
        reveal_strlit("..");
        assert(is_plain_component("downloads"@)) by {
            let d = "downloads"@;
            assert forall|i: int| 0 <= i < d.len() implies {
                let c = #[trigger] d[i];
                c != '/' && c != '\\' && c != ':'
            } by {
                assert(0 <= i < 9);
            }
        }
        assert(is_plain_name("downloads"@));
        assert("./downloads"@[1] == '/');
        assert("./downloads"@.subrange(0, 2) =~= "./"@);
        assert("./downloads"@.subrange(2, 11) =~= "downloads"@);
        assert(relative_name("downloads"@) == Some("downloads"@));
        assert(relative_name("./downloads"@) == Some("downloads"@));
    }
    if same_path(path, "downloads") || same_path(path, "./downloads") {
        return true;
    }
    let normalized = normalize_path(path);
    if path_ends_with(normalized.as_str(), "downloads") {
        match data_dir {
            Some(d) => {
                let legacy = join_path(d, "downloads");
                let legacy_normalized = normalize_path(legacy.as_str());
                return same_path(normalized.as_str(), legacy_normalized.as_str());
            },
            None => {},
        }
    }
    false
}

/// Whether `path` is a download directory that older versions used by
/// default (see [`is_legacy_download_dir_in`]), under this user's data
/// directory.
pub fn is_legacy_default_download_dir(path: &str) -> (r: bool)
    ensures
        path@ == "downloads"@ || path@ == "./downloads"@ ==> r,
        r ==> has_component(path@, "downloads"@),
{
    let d = data_dir();
    match &d {
        Some(dir) => is_legacy_download_dir_in(path, Some(dir.as_str())),
        None => is_legacy_download_dir_in(path, None),
    }
}

} // verus!
