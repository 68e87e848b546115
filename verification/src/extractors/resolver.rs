//! Routing of a URL: which platform it belongs to, what kind of resource
//! it names, which extractor work resolves it, and how the results of the
//! downloads of a collection are summed up.

use vstd::prelude::*;
use crate::deps::yt_dlp::YtDlp;
use crate::extractors::spotify::SpotifyExtractor;
use crate::extractors::youtube::YouTubeExtractor;
use crate::error::SourisError;
use crate::extractors::spotify::SpotifyTrackInfo;
use crate::extractors::youtube::YtDlpEntry;
use crate::media::types::{DownloadResult, MediaInfo, PlaylistInfo};
use crate::deps::yt_dlp::opt_view;
use crate::text::{
    all_ascii, ascii_lower, chars_of, concat2, concat3, contains, contains_str, decimal, lowercase_of, owned, replace_all,
    replace_chars, string_from_chars, to_lowercase, u64_to_string,
};

verus! {

#[derive(Debug, Clone, Copy, PartialEq, Eq, Structural)]
pub enum Platform {
    YouTube,
    Spotify,
    Unknown,
}

#[derive(Debug, Clone, Copy, PartialEq, Eq, Structural)]
pub enum ResourceType {
    Video,
    Playlist,
    Track,
    Album,
    Search,
}

/// The platform of a lower-cased URL: YouTube for `youtube.com` and
/// `youtu.be`, Spotify for `spotify.com`, otherwise unknown.
pub open spec fn platform_of_lower(u: Seq<char>) -> Platform {
    if contains(u, "youtube.com"@) || contains(u, "youtu.be"@) {
        Platform::YouTube
    } else if contains(u, "spotify.com"@) {
        Platform::Spotify
    } else {
        Platform::Unknown
    }
}

/// The resource a lower-cased URL names: a playlist for `/playlist` or
/// `list=`, a track for `/track/`, an album for `/album/`, otherwise a video.
pub open spec fn resource_of_lower(u: Seq<char>) -> ResourceType {
    if contains(u, "/playlist"@) || contains(u, "list="@) {
        ResourceType::Playlist
    } else if contains(u, "/track/"@) {
        ResourceType::Track
    } else if contains(u, "/album/"@) {
        ResourceType::Album
    } else {
        ResourceType::Video
    }
}

/// The name of a platform as shown to users.
pub open spec fn platform_name(p: Platform) -> Seq<char> {
    match p {
        Platform::YouTube => "youtube"@,
        Platform::Spotify => "spotify"@,
        Platform::Unknown => "unknown"@,
    }
}

/// Routes URLs to the extractor of their platform.
pub struct Resolver {
    youtube: YouTubeExtractor,
    spotify: Option<SpotifyExtractor>,
}

impl Resolver {
    /// Whether a Spotify extractor is configured.
    pub closed spec fn spec_has_spotify(&self) -> bool {
        self.spotify is Some
    }

    /// The Spotify extractor, if configured.
    pub closed spec fn spec_spotify(&self) -> Option<SpotifyExtractor> {
        self.spotify
    }

    /// A resolver running `yt_dlp`; Spotify is handled only when both a
    /// client id and a client secret are given.
    pub fn new(yt_dlp: YtDlp, spotify_client_id: Option<String>, spotify_client_secret: Option<String>) -> (r: Resolver)
        ensures
            r.spec_has_spotify() == (spotify_client_id is Some && spotify_client_secret is Some),
            r.spec_youtube().spec_yt_dlp() == yt_dlp,
            r.spec_spotify() matches Some(e) ==> e.spec_client_id() == spotify_client_id
                && e.spec_client_secret() == spotify_client_secret,
    {
        let youtube = YouTubeExtractor::new(yt_dlp);
        let spotify = if spotify_client_id.is_some() && spotify_client_secret.is_some() {
            Some(SpotifyExtractor::new(spotify_client_id, spotify_client_secret))
        } else {
            None
        };
        Resolver { youtube, spotify }
    }

    /// The YouTube extractor.
    pub closed spec fn spec_youtube(&self) -> YouTubeExtractor {
        self.youtube
    }

    /// The YouTube extractor.
    pub fn youtube(&self) -> (y: &YouTubeExtractor)
        ensures
            *y == self.spec_youtube(),
    {
        &self.youtube
    }

    /// The Spotify extractor, if configured.
    pub fn spotify(&self) -> (s: Option<&SpotifyExtractor>)
        ensures
            s is Some == self.spec_has_spotify(),
            s matches Some(e) ==> self.spec_spotify() == Some(*e),
    {
        match &self.spotify {
            Some(s) => Some(s),
            None => None,
        }
    }

    /// The platform a URL belongs to (case is ignored).
    pub fn detect_platform(&self, url: &str) -> (p: Platform)
        ensures
            p == platform_of_lower(lowercase_of(url@)),
            all_ascii(url@) ==> p == platform_of_lower(ascii_lower(url@)),
    {
        Self::detect_platform_static(url)
    }

    /// The platform a URL belongs to (case is ignored).
    pub fn detect_platform_static(url: &str) -> (p: Platform)
        ensures
            p == platform_of_lower(lowercase_of(url@)),
            all_ascii(url@) ==> p == platform_of_lower(ascii_lower(url@)),
    {
        let lower = to_lowercase(url);
        if contains_str(lower.as_str(), "youtube.com") || contains_str(lower.as_str(), "youtu.be") {
            Platform::YouTube
        } else if contains_str(lower.as_str(), "spotify.com") {
            Platform::Spotify
        } else {
            Platform::Unknown
        }
    }

    /// The name of the platform a URL belongs to.
    pub fn detect_platform_name(url: &str) -> (s: String)
        ensures
            s@ == platform_name(platform_of_lower(lowercase_of(url@))),
            all_ascii(url@) ==> s@ == platform_name(platform_of_lower(ascii_lower(url@))),
    {
        match Self::detect_platform_static(url) {
            Platform::YouTube => owned("youtube"),
            Platform::Spotify => owned("spotify"),
            Platform::Unknown => owned("unknown"),
        }
    }

    /// The kind of resource a URL names (case is ignored).
    pub fn detect_resource_type(&self, url: &str) -> (r: ResourceType)
        ensures
            r == resource_of_lower(lowercase_of(url@)),
            all_ascii(url@) ==> r == resource_of_lower(ascii_lower(url@)),
    {
        let lower = to_lowercase(url);
        if contains_str(lower.as_str(), "/playlist") || contains_str(lower.as_str(), "list=") {
            ResourceType::Playlist
        } else if contains_str(lower.as_str(), "/track/") {
            ResourceType::Track
        } else if contains_str(lower.as_str(), "/album/") {
            ResourceType::Album
        } else {
            ResourceType::Video
        }
    }
}


// ---------------------------------------------------------------- routes

/// The extractor work that resolves a URL.
pub enum Route {
    /// A YouTube playlist: its items.
    YouTubePlaylist,
    /// Anything else that yt-dlp handles: the URL itself.
    Direct,
    /// A Spotify track, matched by a YouTube search.
    SpotifyTrack,
    /// The tracks of a Spotify album or playlist, each matched by a YouTube
    /// search.
    SpotifyCollection { album: bool },
    /// The URL cannot be resolved.
    Refused(SourisError),
}

/// The message that tells Spotify kinds other than tracks, playlists and
/// albums apart.
pub open spec fn spotify_kinds_message() -> Seq<char> {
    "Spotify (only tracks, playlists and albums supported)"@
}

/// The route of a URL of `platform` naming `resource`: YouTube playlists
/// by their items, Spotify tracks, albums and playlists by YouTube searches
/// when Spotify is configured, and everything else directly. `Refused`
/// carries a configuration error when Spotify is not configured and an
/// unsupported-platform error for other Spotify resources.
pub open spec fn route_of(platform: Platform, resource: ResourceType, has_spotify: bool, r: Route, missing: Seq<char>) -> bool {
    match platform {
        Platform::YouTube => if resource == ResourceType::Playlist { r is YouTubePlaylist } else { r is Direct },
        Platform::Unknown => r is Direct,
        Platform::Spotify => if !has_spotify {
            r matches Route::Refused(SourisError::ConfigError(m)) && m@ == missing
        } else if resource == ResourceType::Track {
            r is SpotifyTrack
        } else if resource == ResourceType::Playlist {
            r == Route::SpotifyCollection { album: false }
        } else if resource == ResourceType::Album {
            r == Route::SpotifyCollection { album: true }
        } else {
            r matches Route::Refused(SourisError::UnsupportedPlatform { platform: m }) && m@ == spotify_kinds_message()
        },
    }
}

fn route_for(platform: Platform, resource: ResourceType, has_spotify: bool, missing: &str) -> (r: Route)
    ensures
        route_of(platform, resource, has_spotify, r, missing@),
{
    match platform {
        Platform::YouTube => if resource == ResourceType::Playlist { Route::YouTubePlaylist } else { Route::Direct },
        Platform::Unknown => Route::Direct,
        Platform::Spotify => if !has_spotify {
            Route::Refused(SourisError::ConfigError(owned(missing)))
        } else if resource == ResourceType::Track {
            Route::SpotifyTrack
        } else if resource == ResourceType::Playlist {
            Route::SpotifyCollection { album: false }
        } else if resource == ResourceType::Album {
            Route::SpotifyCollection { album: true }
        } else {
            Route::Refused(SourisError::UnsupportedPlatform {
                platform: owned("Spotify (only tracks, playlists and albums supported)"),
            })
        },
    }
}

/// The message when a description asks for Spotify without credentials.
pub open spec fn info_credentials_message() -> Seq<char> {
    "Spotify credentials not configured. Set spotify.client_id and spotify.client_secret in config."@
}

/// The message when a download asks for Spotify without credentials.
pub open spec fn download_credentials_message() -> Seq<char> {
    "Spotify credentials not configured"@
}

impl Resolver {
    /// How the description of `url` is obtained (see [`route_of`]).
    pub fn info_route(&self, url: &str) -> (r: Route)
        ensures
            route_of(
                platform_of_lower(lowercase_of(url@)),
                resource_of_lower(lowercase_of(url@)),
                self.spec_has_spotify(),
                r,
                info_credentials_message(),
            ),
    {
        let platform = self.detect_platform(url);
        let resource = self.detect_resource_type(url);
        route_for(
            platform,
            resource,
            self.spotify.is_some(),
            "Spotify credentials not configured. Set spotify.client_id and spotify.client_secret in config.",
        )
    }

    /// How `url` is downloaded (see [`route_of`]).
    pub fn download_route(&self, url: &str) -> (r: Route)
        ensures
            route_of(
                platform_of_lower(lowercase_of(url@)),
                resource_of_lower(lowercase_of(url@)),
                self.spec_has_spotify(),
                r,
                download_credentials_message(),
            ),
    {
        let platform = self.detect_platform(url);
        let resource = self.detect_resource_type(url);
        route_for(platform, resource, self.spotify.is_some(), "Spotify credentials not configured")
    }
}

// ---------------------------------------------------------------- descriptions

/// The description of a YouTube playlist: its first item, or an error when
/// it has none.
pub fn first_playlist_item(items: Vec<MediaInfo>) -> (r: Result<MediaInfo, SourisError>)
    ensures
        items.len() > 0 ==> r == Ok::<MediaInfo, SourisError>(items[0]),
        items.len() == 0 ==> (r matches Err(SourisError::DownloadFailed { reason }) && reason@ == "Playlist is empty"@),
{
    let mut items = items;
    if items.len() > 0 {
        Ok(items.remove(0))
    } else {
        Err(SourisError::DownloadFailed { reason: owned("Playlist is empty") })
    }
}

/// The platform shown for a Spotify item matched on YouTube.
pub open spec fn matched_platform(youtube_platform: Seq<char>) -> Seq<char> {
    "Spotify -> YouTube ("@ + youtube_platform + ")"@
}

/// Marks the description of the YouTube match of a Spotify item as such.
pub fn mark_spotify_match(info: MediaInfo) -> (r: MediaInfo)
    ensures
        r.platform@ == matched_platform(info.platform@),
        r.id == info.id,
        r.title == info.title,
        r.media_type == info.media_type,
        r.duration == info.duration,
        r.uploader == info.uploader,
        r.thumbnail == info.thumbnail,
        r.formats == info.formats,
        r.subtitles == info.subtitles,
        r.playlist == info.playlist,
{
    let platform = concat3("Spotify -> YouTube (", info.platform.as_str(), ")");
    MediaInfo { platform, ..info }
}

/// The title of a Spotify collection of `count` tracks.
pub open spec fn collection_title(album: bool, count: nat) -> Seq<char> {
    (if album { "Spotify Album ("@ } else { "Spotify Playlist ("@ }) + decimal(count) + " tracks)"@
}

/// The playlist a Spotify album or playlist stands for: its URL, a title
/// that counts its tracks, and the count.
pub fn collection_info(url: &str, album: bool, count: usize) -> (p: PlaylistInfo)
    ensures
        p.id@ == url@,
        p.title@ == collection_title(album, count as nat),
        p.count == count,
{
    let n = u64_to_string(count as u64);
    let head = if album { "Spotify Album (" } else { "Spotify Playlist (" };
    PlaylistInfo { id: owned(url), title: concat3(head, n.as_str(), " tracks)"), count }
}

/// The error when a YouTube search for `query` found nothing.
pub fn no_results_for(query: &str) -> (e: SourisError)
    ensures
        e matches SourisError::DownloadFailed { reason } && reason@ == "No YouTube results for: "@ + query@,
{
    SourisError::DownloadFailed { reason: concat2("No YouTube results for: ", query) }
}

/// The error when the YouTube search for the first track of a Spotify
/// collection found nothing.
pub fn no_results() -> (e: SourisError)
    ensures
        e matches SourisError::DownloadFailed { reason } && reason@ == "No YouTube results found"@,
{
    SourisError::DownloadFailed { reason: owned("No YouTube results found") }
}

/// The error when a Spotify album or playlist has no tracks.
pub fn empty_collection(album: bool) -> (e: SourisError)
    ensures
        e matches SourisError::DownloadFailed { reason }
            && reason@ == (if album { "Spotify album is empty"@ } else { "Spotify playlist is empty"@ }),
{
    if album {
        SourisError::DownloadFailed { reason: owned("Spotify album is empty") }
    } else {
        SourisError::DownloadFailed { reason: owned("Spotify playlist is empty") }
    }
}

// ---------------------------------------------------------------- downloads

/// A download that failed with `message`.
pub fn failed_download(message: String) -> (r: DownloadResult)
    ensures
        !r.success,
        r.path is None,
        r.size is None,
        r.error == Some(message),
        r.elapsed is None,
{
    DownloadResult { success: false, path: None, size: None, error: Some(message), elapsed: None }
}

/// The failed item of a Spotify collection whose track YouTube search did
/// not find: the message names the search.
pub fn no_results_item(query: &str) -> (r: DownloadResult)
    ensures
        !r.success,
        r.path is None,
        r.size is None,
        r.error matches Some(m) && m@ == "No YouTube results for: "@ + query@,
        r.elapsed is None,
{
    failed_download(concat2("No YouTube results for: ", query))
}

/// The optional path with every occurrence of `from` replaced by `to`.
pub open spec fn renamed(path: Option<String>, from: Seq<char>, to: Seq<char>) -> Option<Seq<char>> {
    match path {
        Some(p) => Some(replace_all(p@, from, to)),
        None => None,
    }
}

/// The result of the download of a Spotify track's YouTube match: the
/// YouTube title in the file's path gives way to the track's name.
pub fn rename_to_track(r: DownloadResult, youtube_title: &str, track: &SpotifyTrackInfo) -> (out: DownloadResult)
    ensures
        opt_view(out.path) == renamed(r.path, youtube_title@, track.name@),
        out.success == r.success,
        out.size == r.size,
        out.error == r.error,
        out.elapsed == r.elapsed,
{
    let path = match &r.path {
        Some(p) => {
            let q = replace_chars(&chars_of(p.as_str()), &chars_of(youtube_title), &chars_of(track.name.as_str()));
            Some(string_from_chars(&q))
        },
        None => None,
    };
    DownloadResult { path, ..r }
}

/// Whether every download succeeded.
pub open spec fn all_succeeded(rs: Seq<DownloadResult>) -> bool {
    forall|i: int| 0 <= i < rs.len() ==> (#[trigger] rs[i]).success
}

/// How many downloads failed.
pub open spec fn failure_count(rs: Seq<DownloadResult>) -> nat
    decreases rs.len(),
{
    if rs.len() == 0 {
        0
    } else {
        failure_count(rs.drop_last()) + if rs.last().success { 0nat } else { 1nat }
    }
}

/// The sum of the sizes that the downloads report.
pub open spec fn size_total(rs: Seq<DownloadResult>) -> nat
    decreases rs.len(),
{
    if rs.len() == 0 {
        0
    } else {
        size_total(rs.drop_last()) + match rs.last().size {
            Some(n) => n as nat,
            None => 0nat,
        }
    }
}

/// The first path that a download reports.
pub open spec fn first_path(rs: Seq<DownloadResult>) -> Option<String>
    decreases rs.len(),
{
    if rs.len() == 0 {
        None
    } else {
        match first_path(rs.drop_last()) {
            Some(p) => Some(p),
            None => rs.last().path,
        }
    }
}

proof fn lemma_size_total_prefix(rs: Seq<DownloadResult>, i: int)
    requires
        0 <= i <= rs.len(),
    ensures
        size_total(rs.subrange(0, i)) <= size_total(rs),
    decreases rs.len() - i,
{
    if i < rs.len() {
        lemma_size_total_prefix(rs, i + 1);
        assert(rs.subrange(0, i + 1).drop_last() =~= rs.subrange(0, i));
    } else {
        assert(rs.subrange(0, i) =~= rs);
    }
}

/// The message of a YouTube playlist whose downloads did not all succeed.
pub open spec fn partial_failure_message(failed: nat, total: nat) -> Seq<char> {
    decimal(failed) + " of "@ + decimal(total) + " downloads failed"@
}

/// The result of a YouTube playlist: a success when every item succeeded,
/// with the sum of the sizes; otherwise how many of how many failed. The
/// path is the first one an item reports.
pub fn playlist_summary(results: &Vec<DownloadResult>) -> (r: DownloadResult)
    requires
        size_total(results@) <= u64::MAX,
    ensures
        r.success == all_succeeded(results@),
        r.path == first_path(results@),
        r.size == (if all_succeeded(results@) { Some(size_total(results@) as u64) } else { None }),
        match r.error {
            Some(m) => !all_succeeded(results@)
                && m@ == partial_failure_message(failure_count(results@), results.len() as nat),
            None => all_succeeded(results@),
        },
        r.elapsed is None,
{
    let mut success = true;
    let mut failed: u64 = 0;
    let mut size: u64 = 0;
    let mut path: Option<String> = None;
    let mut i: usize = 0;
    assert(results@.subrange(0, 0) =~= Seq::<DownloadResult>::empty());
    while i < results.len()
        invariant
            i <= results.len(),
            size_total(results@) <= u64::MAX,
            success == all_succeeded(results@.subrange(0, i as int)),
            failed == failure_count(results@.subrange(0, i as int)),
            failed <= i,
            size == size_total(results@.subrange(0, i as int)),
            path == first_path(results@.subrange(0, i as int)),
        decreases results.len() - i,
    {
        let r = &results[i];
        let ghost pre = results@.subrange(0, i as int);
        let ghost next = results@.subrange(0, i + 1);
        assert(next.drop_last() =~= pre);
        assert(next.last() == *r);
        proof {
            lemma_size_total_prefix(results@, i + 1);
        }
        if !r.success {
            success = false;
            failed = failed + 1;
        }
        assert(success == all_succeeded(next)) by {
            if success {
                assert forall|k: int| 0 <= k < next.len() implies (#[trigger] next[k]).success by {
                    if k < i {
                        assert(next[k] == pre[k]);
                    }
                }
            } else if !r.success {
                assert(!next[i as int].success);
            } else {
                let k = choose|k: int| 0 <= k < pre.len() && !(#[trigger] pre[k]).success;
                assert(next[k] == pre[k]);
            }
        }
        match r.size {
            Some(n) => {
                size = size + n;
            },
            None => {},
        }
        if path.is_none() {
            path = r.path.clone();
        }
        i = i + 1;
    }
    assert(results@.subrange(0, results.len() as int) =~= results@);
    let total = results.len();
    DownloadResult {
        success,
        path,
        size: if success { Some(size) } else { None },
        error: if success {
            None
        } else {
            let f = u64_to_string(failed);
            let t = u64_to_string(total as u64);
            let head = concat3(f.as_str(), " of ", t.as_str());
            Some(concat2(head.as_str(), " downloads failed"))
        },
        elapsed: None,
    }
}

/// The result of a Spotify album or playlist: a success when every track
/// succeeded; the sum of the sizes in any case; the path of the last
/// track's result.
pub fn collection_summary(results: &Vec<DownloadResult>) -> (r: DownloadResult)
    requires
        size_total(results@) <= u64::MAX,
    ensures
        r.success == all_succeeded(results@),
        r.path == (if results.len() > 0 { results@.last().path } else { None }),
        r.size == Some(size_total(results@) as u64),
        match r.error {
            Some(m) => !all_succeeded(results@) && m@ == "Some downloads failed"@,
            None => all_succeeded(results@),
        },
        r.elapsed is None,
{
    let mut success = true;
    let mut size: u64 = 0;
    let mut i: usize = 0;
    assert(results@.subrange(0, 0) =~= Seq::<DownloadResult>::empty());
    while i < results.len()
        invariant
            i <= results.len(),
            size_total(results@) <= u64::MAX,
            success == all_succeeded(results@.subrange(0, i as int)),
            size == size_total(results@.subrange(0, i as int)),
        decreases results.len() - i,
    {
        let r = &results[i];
        let ghost pre = results@.subrange(0, i as int);
        let ghost next = results@.subrange(0, i + 1);
        assert(next.drop_last() =~= pre);
        assert(next.last() == *r);
        proof {
            lemma_size_total_prefix(results@, i + 1);
        }
        if !r.success {
            success = false;
        }
        assert(success == all_succeeded(next)) by {
            if success {
                assert forall|k: int| 0 <= k < next.len() implies (#[trigger] next[k]).success by {
                    if k < i {
                        assert(next[k] == pre[k]);
                    }
                }
            } else if !r.success {
                assert(!next[i as int].success);
            } else {
                let k = choose|k: int| 0 <= k < pre.len() && !(#[trigger] pre[k]).success;
                assert(next[k] == pre[k]);
            }
        }
        match r.size {
            Some(n) => {
                size = size + n;
            },
            None => {},
        }
        i = i + 1;
    }
    assert(results@.subrange(0, results.len() as int) =~= results@);
    let path = if results.len() > 0 { results[results.len() - 1].path.clone() } else { None };
    DownloadResult {
        success,
        path,
        size: Some(size),
        error: if success { None } else { Some(owned("Some downloads failed")) },
        elapsed: None,
    }
}


/// A collection's downloads all succeeded exactly when none failed.
pub proof fn law_success_iff_no_failures(rs: Seq<DownloadResult>)
    ensures
        all_succeeded(rs) <==> failure_count(rs) == 0,
    decreases rs.len(),
{
    if rs.len() > 0 {
        law_success_iff_no_failures(rs.drop_last());
        if all_succeeded(rs) {
            assert forall|i: int| 0 <= i < rs.drop_last().len() implies (#[trigger] rs.drop_last()[i]).success by {
                assert(rs.drop_last()[i] == rs[i]);
            }
            assert(rs[rs.len() - 1].success);
        } else if all_succeeded(rs.drop_last()) {
            let k = choose|k: int| 0 <= k < rs.len() && !(#[trigger] rs[k]).success;
            if k < rs.len() - 1 {
                assert(rs.drop_last()[k] == rs[k]);
            }
        }
    }
}

} // verus!
