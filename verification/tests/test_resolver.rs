use souris_dw::deps::yt_dlp::YtDlp;
use souris_dw::extractors::resolver::{
    collection_info, collection_summary, empty_collection, failed_download, first_playlist_item, mark_spotify_match,
    no_results_for, playlist_summary, rename_to_track, Platform, ResourceType, Resolver, Route,
};
use souris_dw::extractors::spotify::SpotifyTrackInfo;
use souris_dw::extractors::youtube::{media_info_from, YtDlpEntry};
use souris_dw::{DownloadResult, SourisError};

fn resolver(spotify: bool) -> Resolver {
    let y = YtDlp::new("yt-dlp", None, "stable", None);
    if spotify {
        Resolver::new(y, Some("id".into()), Some("secret".into()))
    } else {
        Resolver::new(y, Some("id".into()), None)
    }
}

#[test]
fn platforms_and_resources() {
    assert_eq!(Resolver::detect_platform_static("https://www.YouTube.com/watch?v=x"), Platform::YouTube);
    assert_eq!(Resolver::detect_platform_static("https://youtu.be/x"), Platform::YouTube);
    assert_eq!(Resolver::detect_platform_static("https://open.spotify.com/track/1"), Platform::Spotify);
    assert_eq!(Resolver::detect_platform_static("https://vimeo.com/1"), Platform::Unknown);
    assert_eq!(Resolver::detect_platform_name("https://youtu.be/x"), "youtube");
    let r = resolver(false);
    assert_eq!(r.detect_resource_type("https://youtube.com/playlist?list=PL"), ResourceType::Playlist);
    assert_eq!(r.detect_resource_type("https://youtube.com/watch?v=a&list=PL"), ResourceType::Playlist);
    assert_eq!(r.detect_resource_type("https://open.spotify.com/track/1"), ResourceType::Track);
    assert_eq!(r.detect_resource_type("https://open.spotify.com/album/1"), ResourceType::Album);
    assert_eq!(r.detect_resource_type("https://youtube.com/watch?v=a"), ResourceType::Video);
}

#[test]
fn routes() {
    let with = resolver(true);
    let without = resolver(false);
    assert!(matches!(with.download_route("https://youtube.com/playlist?list=x"), Route::YouTubePlaylist));
    assert!(matches!(with.download_route("https://youtube.com/watch?v=x"), Route::Direct));
    assert!(matches!(with.download_route("https://example.com/v"), Route::Direct));
    assert!(matches!(with.download_route("https://open.spotify.com/track/1"), Route::SpotifyTrack));
    assert!(matches!(with.download_route("https://open.spotify.com/album/1"), Route::SpotifyCollection { album: true }));
    assert!(matches!(with.download_route("https://open.spotify.com/playlist/1"), Route::SpotifyCollection { album: false }));
    match with.download_route("https://open.spotify.com/artist/1") {
        Route::Refused(SourisError::UnsupportedPlatform { platform }) => {
            assert_eq!(platform, "Spotify (only tracks, playlists and albums supported)")
        }
        _ => panic!("artists are refused"),
    }
    match without.download_route("https://open.spotify.com/track/1") {
        Route::Refused(SourisError::ConfigError(m)) => assert_eq!(m, "Spotify credentials not configured"),
        _ => panic!("credentials are needed"),
    }
    match without.info_route("https://open.spotify.com/track/1") {
        Route::Refused(SourisError::ConfigError(m)) => assert!(m.starts_with("Spotify credentials not configured. Set")),
        _ => panic!("credentials are needed"),
    }
}

fn result(success: bool, path: Option<&str>, size: Option<u64>) -> DownloadResult {
    DownloadResult { success, path: path.map(|p| p.to_string()), size, error: None, elapsed: None }
}

#[test]
fn playlist_summary_counts_failures() {
    let rs = vec![result(true, None, Some(10)), result(false, Some("/a"), None), result(false, Some("/b"), Some(5))];
    let s = playlist_summary(&rs);
    assert!(!s.success);
    assert_eq!(s.error.as_deref(), Some("2 of 3 downloads failed"));
    assert_eq!(s.size, None);
    assert_eq!(s.path.as_deref(), Some("/a"));
    let ok = playlist_summary(&vec![result(true, None, Some(10)), result(true, Some("/c"), Some(7))]);
    assert!(ok.success);
    assert_eq!(ok.size, Some(17));
    assert_eq!(ok.error, None);
    assert_eq!(ok.path.as_deref(), Some("/c"));
    let empty = playlist_summary(&vec![]);
    assert!(empty.success);
    assert_eq!(empty.size, Some(0));
}

#[test]
fn collection_summary_keeps_last_path() {
    let rs = vec![result(true, Some("/a"), Some(3)), failed_download("No YouTube results for: q".into())];
    let s = collection_summary(&rs);
    assert!(!s.success);
    assert_eq!(s.error.as_deref(), Some("Some downloads failed"));
    assert_eq!(s.size, Some(3));
    assert_eq!(s.path, None);
    let ok = collection_summary(&vec![result(true, Some("/a"), None), result(true, Some("/b"), Some(2))]);
    assert!(ok.success);
    assert_eq!(ok.path.as_deref(), Some("/b"));
    assert_eq!(ok.size, Some(2));
}

#[test]
fn spotify_match_helpers() {
    let track = SpotifyTrackInfo {
        id: "1".into(),
        name: "Song".into(),
        artist: "Band".into(),
        album: "LP".into(),
        duration_ms: 1,
        thumbnail: None,
    };
    let r = rename_to_track(result(true, Some("/d/Band - Song (Official Video).mp3"), None), "Band - Song (Official Video)", &track);
    assert_eq!(r.path.as_deref(), Some("/d/Song.mp3"));
    let info = media_info_from(&YtDlpEntry {
        id: Some("x".into()),
        title: Some("t".into()),
        url: None,
        extractor_key: Some("Youtube".into()),
        thumbnail: None,
        duration: None,
        uploader: None,
        entry_type: None,
        vcodec: None,
        formats: None,
        subtitles: vec![],
    });
    assert_eq!(mark_spotify_match(info).platform, "Spotify -> YouTube (Youtube)");
    let p = collection_info("https://open.spotify.com/album/1", true, 12);
    assert_eq!(p.title, "Spotify Album (12 tracks)");
    assert_eq!(p.count, 12);
    assert_eq!(collection_info("u", false, 1).title, "Spotify Playlist (1 tracks)");
    assert_eq!(no_results_for("a b").to_string(), "Download failed: No YouTube results for: a b");
    assert_eq!(empty_collection(true).to_string(), "Download failed: Spotify album is empty");
    assert!(matches!(first_playlist_item(vec![]), Err(SourisError::DownloadFailed { .. })));
}
