use souris_dw::extractors::spotify::{
    absorb_page, bearer, cache_token, fresh_token, playlist_tracks_url, track_api_url, track_from_json, SpotifyExtractor,
    SpotifyPage, SpotifyTrackJson, TOKEN_TTL,
};
use souris_dw::SourisError;

fn json(id: Option<&str>, name: Option<&str>) -> SpotifyTrackJson {
    SpotifyTrackJson {
        id: id.map(|s| s.to_string()),
        name: name.map(|s| s.to_string()),
        first_artist: Some("Artist".into()),
        album_name: None,
        duration_ms: Some(1234),
        first_image: Some("img".into()),
    }
}

#[test]
fn ids_from_urls() {
    let e = SpotifyExtractor::new(None, None);
    assert_eq!(e.extract_track_id("https://open.spotify.com/track/abc123?si=x").unwrap(), "abc123");
    assert_eq!(e.extract_playlist_id("https://open.spotify.com/playlist/PL1/").unwrap(), "PL1");
    assert_eq!(e.extract_album_id("https://open.spotify.com/album/AL").unwrap(), "AL");
    match e.extract_track_id("https://open.spotify.com/track/") {
        Err(SourisError::InvalidUrl { url }) => assert_eq!(url, "https://open.spotify.com/track"),
        _ => panic!("no id"),
    }
}

#[test]
fn token_form_needs_both_credentials() {
    let none = SpotifyExtractor::new(None, Some("s".into()));
    match none.token_form() {
        Err(SourisError::ConfigError(m)) => assert_eq!(m, "Spotify client_id not configured"),
        _ => panic!("id missing"),
    }
    let half = SpotifyExtractor::new(Some("i".into()), None);
    match half.token_form() {
        Err(SourisError::ConfigError(m)) => assert_eq!(m, "Spotify client_secret not configured"),
        _ => panic!("secret missing"),
    }
    let full = SpotifyExtractor::new(Some("i".into()), Some("s".into()));
    let form = full.token_form().unwrap();
    assert_eq!(form, vec![
        ("grant_type".to_string(), "client_credentials".to_string()),
        ("client_id".to_string(), "i".to_string()),
        ("client_secret".to_string(), "s".to_string()),
    ]);
}

#[test]
fn token_cache_expires() {
    let cache = Some(cache_token("tok".into(), 100));
    assert_eq!(fresh_token(&cache, 100).as_deref(), Some("tok"));
    assert_eq!(fresh_token(&cache, 100 + TOKEN_TTL - 1).as_deref(), Some("tok"));
    assert_eq!(fresh_token(&cache, 100 + TOKEN_TTL), None);
    assert_eq!(fresh_token(&None, 0), None);
}

#[test]
fn tracks_from_pages() {
    let t = track_from_json(&json(None, None), "given");
    assert_eq!(t.id, "given");
    assert_eq!(t.name, "Unknown");
    assert_eq!(t.album, "Unknown");
    assert_eq!(t.artist, "Artist");
    assert_eq!(t.to_search_query(), "Unknown Artist Unknown");
    let mut tracks = vec![t];
    let page = SpotifyPage { items: vec![Some(json(Some("a"), Some("A"))), None, Some(json(None, Some("B")))], next: Some("n".into()) };
    let next = absorb_page(&mut tracks, &page);
    assert_eq!(next.as_deref(), Some("n"));
    assert_eq!(tracks.len(), 3);
    assert_eq!(tracks[1].id, "a");
    assert_eq!(tracks[2].id, "");
    assert_eq!(tracks[2].name, "B");
}

#[test]
fn api_addresses() {
    assert_eq!(track_api_url("x"), "https://api.spotify.com/v1/tracks/x");
    assert_eq!(playlist_tracks_url("p"), "https://api.spotify.com/v1/playlists/p/tracks?limit=100");
    assert_eq!(bearer("t"), "Bearer t");
}
