//! Spotify: the extractor's credentials and access token, the track and
//! playlist ids in Spotify URLs, the Web API requests, how its answers are
//! read into tracks, and the YouTube search a track is matched by.

use vstd::prelude::*;
use crate::error::SourisError;
use crate::deps::yt_dlp::opt_view;
use crate::extractors::youtube::text_or;
use crate::text::{chars_of, concat2, concat3, owned, pieces_view, split_chars, split_on, string_from_chars, str_eq};

verus! {

/// Looks up Spotify metadata with client credentials.
pub struct SpotifyExtractor {
    client_id: Option<String>,
    client_secret: Option<String>,
}

/// What Spotify reports about one track.
#[derive(Debug, Clone)]
pub struct SpotifyTrackInfo {
    pub id: String,
    pub name: String,
    pub artist: String,
    pub album: String,
    pub duration_ms: u64,
    pub thumbnail: Option<String>,
}

impl SpotifyTrackInfo {
    /// The YouTube search that finds the track: name, artist and album,
    /// separated by single spaces.
    pub open spec fn search_query(&self) -> Seq<char> {
        self.name@ + " "@ + self.artist@ + " "@ + self.album@
    }

    /// The YouTube search that finds the track.
    pub fn to_search_query(&self) -> (q: String)
        ensures
            q@ == self.search_query(),
    {
        let head = concat3(self.name.as_str(), " ", self.artist.as_str());
        concat3(head.as_str(), " ", self.album.as_str())
    }
}

/// `s` without its trailing `/` characters.
pub open spec fn trim_trailing_slashes(s: Seq<char>) -> Seq<char>
    decreases s.len(),
{
    if s.len() > 0 && s.last() == '/' { trim_trailing_slashes(s.drop_last()) } else { s }
}

/// The first position `i` at or after `from` where `parts[i]` is `key` and
/// another part follows.
pub open spec fn key_position(parts: Seq<Seq<char>>, key: Seq<char>, from: int) -> Option<int>
    decreases parts.len() - from,
{
    if from < 0 || from + 1 >= parts.len() {
        None
    } else if parts[from] == key {
        Some(from)
    } else {
        key_position(parts, key, from + 1)
    }
}

/// The id that follows the path segment `key` in a Spotify URL: trailing
/// slashes are ignored, the URL is split at `/`, and the segment after the
/// first `key` that has one is taken up to its first `?`.
pub open spec fn id_after(url: Seq<char>, key: Seq<char>) -> Option<Seq<char>> {
    let parts = split_on(trim_trailing_slashes(url), '/');
    match key_position(parts, key, 0) {
        Some(i) => Some(split_on(parts[i + 1], '?')[0]),
        None => None,
    }
}

fn trim_slashes(s: &Vec<char>) -> (r: Vec<char>)
    ensures
        r@ == trim_trailing_slashes(s@),
{
    let mut j = s.len();
    assert(s@.subrange(0, j as int) =~= s@);
    while j > 0 && s[j - 1] == '/'
        invariant
            j <= s.len(),
            trim_trailing_slashes(s@) == trim_trailing_slashes(s@.subrange(0, j as int)),
        decreases j,
    {
        assert(s@.subrange(0, j as int).drop_last() =~= s@.subrange(0, j - 1));
        j = j - 1;
    }
    assert(s@.subrange(0, 0) =~= Seq::<char>::empty());
    let r = crate::text::slice_chars(s, 0, j);
    r
}

fn vec_eq_str(v: &Vec<char>, s: &str) -> (b: bool)
    ensures
        b == (v@ == s@),
{
    let w = chars_of(s);
    crate::deps::vec_chars_eq(v, &w)
}

/// The id after `key` in a URL; an `InvalidUrl` error carrying the URL
/// without its trailing slashes when there is none.
pub fn extract_id(url: &str, key: &str) -> (r: Result<String, SourisError>)
    ensures
        id_after(url@, key@) matches Some(id) ==> (r matches Ok(s) && s@ == id),
        id_after(url@, key@) is None ==> (r matches Err(SourisError::InvalidUrl { url: u }) && u@ == trim_trailing_slashes(url@)),
{
    let trimmed = trim_slashes(&chars_of(url));
    let parts = split_chars(&trimmed, '/');
    let ghost pv = pieces_view(parts@);
    let mut i: usize = 0;
    while parts.len() > 0 && i < parts.len() - 1
        invariant
            i <= parts.len(),
            pv == pieces_view(parts@),
            pv == split_on(trim_trailing_slashes(url@), '/'),
            key_position(pv, key@, 0) == key_position(pv, key@, i as int),
        decreases parts.len() - i,
    {
        if vec_eq_str(&parts[i], key) {
            let pieces = split_chars(&parts[i + 1], '?');
            proof {
                crate::text::lemma_split_on_nonempty(parts@[i + 1]@, '?');
            }
            return Ok(string_from_chars(&pieces[0]));
        }
        i = i + 1;
    }
    Err(SourisError::InvalidUrl { url: string_from_chars(&trimmed) })
}

impl SpotifyExtractor {
    pub closed spec fn spec_client_id(&self) -> Option<String> {
        self.client_id
    }

    pub closed spec fn spec_client_secret(&self) -> Option<String> {
        self.client_secret
    }

    /// An extractor with the given client credentials.
    pub fn new(client_id: Option<String>, client_secret: Option<String>) -> (e: SpotifyExtractor)
        ensures
            e.spec_client_id() == client_id,
            e.spec_client_secret() == client_secret,
    {
        SpotifyExtractor { client_id, client_secret }
    }

    /// The client id, if configured.
    pub fn client_id(&self) -> (c: Option<&String>)
        ensures
            c matches Some(s) ==> self.spec_client_id() == Some(*s),
            c is None ==> self.spec_client_id() is None,
    {
        match &self.client_id {
            Some(s) => Some(s),
            None => None,
        }
    }

    /// The client secret, if configured.
    pub fn client_secret(&self) -> (c: Option<&String>)
        ensures
            c matches Some(s) ==> self.spec_client_secret() == Some(*s),
            c is None ==> self.spec_client_secret() is None,
    {
        match &self.client_secret {
            Some(s) => Some(s),
            None => None,
        }
    }

    /// The form of a client-credentials token request: the grant type, the
    /// client id and the client secret; an error when either credential is
    /// missing (the id is asked for first).
    pub fn token_form(&self) -> (r: Result<Vec<(String, String)>, SourisError>)
        ensures
            self.spec_client_id() is None ==> (r matches Err(SourisError::ConfigError(m))
                && m@ == "Spotify client_id not configured"@),
            self.spec_client_id() is Some && self.spec_client_secret() is None ==> (r matches Err(
                SourisError::ConfigError(m),
            ) && m@ == "Spotify client_secret not configured"@),
            self.spec_client_id() is Some && self.spec_client_secret() is Some ==> (r matches Ok(form) && form@.len() == 3
                && form@[0].0@ == "grant_type"@ && form@[0].1@ == "client_credentials"@
                && form@[1].0@ == "client_id"@ && form@[1].1@ == self.spec_client_id().unwrap()@
                && form@[2].0@ == "client_secret"@ && form@[2].1@ == self.spec_client_secret().unwrap()@),
    {
        let id = match &self.client_id {
            Some(c) => c,
            None => {
                return Err(SourisError::ConfigError(owned("Spotify client_id not configured")));
            },
        };
        let secret = match &self.client_secret {
            Some(c) => c,
            None => {
                return Err(SourisError::ConfigError(owned("Spotify client_secret not configured")));
            },
        };
        let mut form: Vec<(String, String)> = Vec::new();
        form.push((owned("grant_type"), owned("client_credentials")));
        form.push((owned("client_id"), owned(id.as_str())));
        form.push((owned("client_secret"), owned(secret.as_str())));
        Ok(form)
    }

    /// The track id of a Spotify track URL.
    pub fn extract_track_id(&self, url: &str) -> (r: Result<String, SourisError>)
        ensures
            id_after(url@, "track"@) matches Some(id) ==> (r matches Ok(s) && s@ == id),
            id_after(url@, "track"@) is None ==> (r matches Err(SourisError::InvalidUrl { url: u }) && u@ == trim_trailing_slashes(url@)),
    {
        extract_id(url, "track")
    }

    /// The playlist id of a Spotify playlist URL.
    pub fn extract_playlist_id(&self, url: &str) -> (r: Result<String, SourisError>)
        ensures
            id_after(url@, "playlist"@) matches Some(id) ==> (r matches Ok(s) && s@ == id),
            id_after(url@, "playlist"@) is None ==> (r matches Err(SourisError::InvalidUrl { url: u }) && u@ == trim_trailing_slashes(url@)),
    {
        extract_id(url, "playlist")
    }

    /// The album id of a Spotify album URL.
    pub fn extract_album_id(&self, url: &str) -> (r: Result<String, SourisError>)
        ensures
            id_after(url@, "album"@) matches Some(id) ==> (r matches Ok(s) && s@ == id),
            id_after(url@, "album"@) is None ==> (r matches Err(SourisError::InvalidUrl { url: u }) && u@ == trim_trailing_slashes(url@)),
    {
        extract_id(url, "album")
    }
}


// ---------------------------------------------------------------- the Web API

/// How long an access token is used, in seconds.
pub const TOKEN_TTL: u64 = 3300;

/// Where client-credential access tokens are requested.
pub open spec fn token_endpoint() -> Seq<char> {
    "https://accounts.spotify.com/api/token"@
}

/// Where client-credential access tokens are requested.
pub fn token_url() -> (u: &'static str)
    ensures
        u@ == token_endpoint(),
{
    "https://accounts.spotify.com/api/token"
}

/// The Web API address of a track.
pub fn track_api_url(id: &str) -> (u: String)
    ensures
        u@ == "https://api.spotify.com/v1/tracks/"@ + id@,
{
    concat2("https://api.spotify.com/v1/tracks/", id)
}

/// The Web API address of the first page of a playlist's tracks.
pub fn playlist_tracks_url(id: &str) -> (u: String)
    ensures
        u@ == "https://api.spotify.com/v1/playlists/"@ + id@ + "/tracks?limit=100"@,
{
    concat3("https://api.spotify.com/v1/playlists/", id, "/tracks?limit=100")
}

/// The `Authorization` header value that carries an access token.
pub fn bearer(token: &str) -> (h: String)
    ensures
        h@ == "Bearer "@ + token@,
{
    concat2("Bearer ", token)
}

/// The error when the Web API answers a request with an unsuccessful
/// status.
pub fn api_error(status: &str) -> (e: SourisError)
    ensures
        e matches SourisError::DownloadFailed { reason } && reason@ == "Spotify API error: "@ + status@,
{
    SourisError::DownloadFailed { reason: concat2("Spotify API error: ", status) }
}

/// The error when the token request is answered with an unsuccessful
/// status.
pub fn auth_error(status: &str) -> (e: SourisError)
    ensures
        e matches SourisError::DownloadFailed { reason } && reason@ == "Spotify auth error: "@ + status@,
{
    SourisError::DownloadFailed { reason: concat2("Spotify auth error: ", status) }
}

/// The access token of a token answer: its `access_token`, or an error
/// when there is none.
pub fn token_from_answer(access_token: Option<String>) -> (r: Result<String, SourisError>)
    ensures
        access_token matches Some(t) ==> r == Ok::<String, SourisError>(t),
        access_token is None ==> (r matches Err(SourisError::DownloadFailed { reason })
            && reason@ == "No access_token in response"@),
{
    match access_token {
        Some(t) => Ok(t),
        None => Err(SourisError::DownloadFailed { reason: owned("No access_token in response") }),
    }
}

/// An access token and the second (on the caller's monotonic clock) at
/// which it is no longer used.
pub struct TokenCache {
    pub token: String,
    pub expires_at: u64,
}

/// The cached token, while it is fresh: `now` is before its expiry.
pub fn fresh_token(cache: &Option<TokenCache>, now: u64) -> (t: Option<String>)
    ensures
        match *cache {
            Some(c) => if now < c.expires_at { t matches Some(s) && s@ == c.token@ } else { t is None },
            None => t is None,
        },
{
    match cache {
        Some(c) => if now < c.expires_at { Some(owned(c.token.as_str())) } else { None },
        None => None,
    }
}

/// The cache entry of a token obtained at `now`: it is used for
/// [`TOKEN_TTL`] seconds.
pub fn cache_token(token: String, now: u64) -> (c: TokenCache)
    requires
        now + TOKEN_TTL <= u64::MAX,
    ensures
        c.token == token,
        c.expires_at == now + TOKEN_TTL,
{
    TokenCache { token, expires_at: now + TOKEN_TTL }
}

/// What the logic reads of a Spotify track object.
pub struct SpotifyTrackJson {
    pub id: Option<String>,
    pub name: Option<String>,
    /// The name of the first artist.
    pub first_artist: Option<String>,
    /// The name of the album.
    pub album_name: Option<String>,
    pub duration_ms: Option<u64>,
    /// The URL of the album's first image.
    pub first_image: Option<String>,
}

/// Whether `t` is the track that the object `j` describes, under the id
/// `id`: what is missing is `Unknown` (no duration is 0).
pub open spec fn describes_track(t: SpotifyTrackInfo, j: SpotifyTrackJson, id: Seq<char>) -> bool {
    &&& t.id@ == id
    &&& t.name@ == text_or(j.name, "Unknown"@)
    &&& t.artist@ == text_or(j.first_artist, "Unknown"@)
    &&& t.album@ == text_or(j.album_name, "Unknown"@)
    &&& t.duration_ms == (match j.duration_ms {
        Some(d) => d,
        None => 0,
    })
    &&& opt_view(t.thumbnail) == opt_view(j.first_image)
}

fn text_or_owned(o: &Option<String>, default: &str) -> (r: String)
    ensures
        r@ == text_or(*o, default@),
{
    match o {
        Some(s) => owned(s.as_str()),
        None => owned(default),
    }
}

/// The track that an object of the Web API describes, under the id `id`.
pub fn track_from_json(j: &SpotifyTrackJson, id: &str) -> (t: SpotifyTrackInfo)
    ensures
        describes_track(t, *j, id@),
{
    SpotifyTrackInfo {
        id: owned(id),
        name: text_or_owned(&j.name, "Unknown"),
        artist: text_or_owned(&j.first_artist, "Unknown"),
        album: text_or_owned(&j.album_name, "Unknown"),
        duration_ms: match j.duration_ms {
            Some(d) => d,
            None => 0,
        },
        thumbnail: match &j.first_image {
            Some(u) => Some(owned(u.as_str())),
            None => None,
        },
    }
}

/// One page of a playlist's tracks: each item's `track` (`None` where it
/// is null), and the address of the next page.
pub struct SpotifyPage {
    pub items: Vec<Option<SpotifyTrackJson>>,
    pub next: Option<String>,
}

/// The track objects of a page that are not null.
pub open spec fn present(items: Seq<Option<SpotifyTrackJson>>) -> Seq<SpotifyTrackJson>
    decreases items.len(),
{
    if items.len() == 0 {
        Seq::empty()
    } else {
        let init = present(items.drop_last());
        match items.last() {
            Some(j) => init.push(j),
            None => init,
        }
    }
}

/// Adds the tracks of a page to `tracks`, each under its own id (empty
/// when missing), skipping null items; returns the address of the next
/// page.
pub fn absorb_page(tracks: &mut Vec<SpotifyTrackInfo>, page: &SpotifyPage) -> (next: Option<String>)
    ensures
        final(tracks)@.len() == old(tracks)@.len() + present(page.items@).len(),
        forall|k: int| 0 <= k < old(tracks)@.len() ==> final(tracks)@[k] == old(tracks)@[k],
        forall|k: int| 0 <= k < present(page.items@).len() ==> describes_track(
            #[trigger] final(tracks)@[old(tracks)@.len() + k],
            present(page.items@)[k],
            text_or(present(page.items@)[k].id, ""@),
        ),
        opt_view(next) == opt_view(page.next),
{
    let ghost start = tracks@;
    let mut i: usize = 0;
    assert(page.items@.subrange(0, 0) =~= Seq::<Option<SpotifyTrackJson>>::empty());
    while i < page.items.len()
        invariant
            i <= page.items.len(),
            tracks@.len() == start.len() + present(page.items@.subrange(0, i as int)).len(),
            forall|k: int| 0 <= k < start.len() ==> tracks@[k] == start[k],
            forall|k: int| 0 <= k < present(page.items@.subrange(0, i as int)).len() ==> describes_track(
                #[trigger] tracks@[start.len() + k],
                present(page.items@.subrange(0, i as int))[k],
                text_or(present(page.items@.subrange(0, i as int))[k].id, ""@),
            ),
        decreases page.items.len() - i,
    {
        let ghost pre = page.items@.subrange(0, i as int);
        let ghost next_items = page.items@.subrange(0, i + 1);
        assert(next_items.drop_last() =~= pre);
        assert(next_items.last() == page.items@[i as int]);
        match &page.items[i] {
            Some(j) => {
                let id = text_or_owned(&j.id, "");
                let t = track_from_json(j, id.as_str());
                tracks.push(t);
                assert(present(next_items) == present(pre).push(*j));
            },
            None => {
                assert(present(next_items) == present(pre));
            },
        }
        i = i + 1;
    }
    assert(page.items@.subrange(0, page.items.len() as int) =~= page.items@);
    match &page.next {
        Some(n) => Some(owned(n.as_str())),
        None => None,
    }
}

} // verus!
