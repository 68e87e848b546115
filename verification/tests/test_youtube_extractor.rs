use souris_dw::deps::yt_dlp::YtDlp;
use souris_dw::extractors::youtube::{
    download_args, extract_downloaded_path, first_attempt_outcome, media_info_from, search_item_from,
    AttemptOutcome, DownloadOptions, YouTubeExtractor, YtDlpEntry, YtDlpFormat, YtDlpSubtitle,
};
use souris_dw::media::request::MediaTypeHint;
use souris_dw::{AudioFormat, AudioQuality, Format, MediaType, Quality, SourisError, VideoFormat, VideoQuality};

fn options() -> DownloadOptions {
    DownloadOptions {
        format: None,
        quality: None,
        output_dir: "/tmp/out".to_string(),
        embed_metadata: false,
        embed_thumbnail: false,
        embed_subtitles: false,
        media_type: None,
        ffmpeg_path: None,
        cookies_file: None,
        cookies_from_browser: None,
    }
}

fn extractor() -> YouTubeExtractor {
    YouTubeExtractor::new(YtDlp::new("/bin/yt-dlp", None, "stable", Some("/bin/deno")))
}

#[test]
fn test_extractor_args_uses_android_client() {
    let args = extractor().retry_command(&options(), "https://youtu.be/x");
    assert!(args.iter().any(|a| a == "--extractor-args"), "the retry should pass --extractor-args");
    assert!(
        args.iter().any(|a| a.contains("player_client=android")),
        "the retry should use player_client=android to avoid 403 errors"
    );
    assert!(!args.iter().any(|a| a.contains("player_js_version")), "no player_js_version");
    let pos = args.iter().position(|a| a == "--extractor-args").unwrap();
    assert_eq!(args[pos + 1], "youtube:player_client=android");
}

#[test]
fn test_youtube_uses_ytdlp_command() {
    let e = extractor();
    let runtime = e.yt_dlp().command_args();
    assert_eq!(runtime, vec!["--js-runtimes".to_string(), "deno:/bin/deno".to_string()]);
    for args in [
        e.download_command(&options(), "u"),
        e.retry_command(&options(), "u"),
        e.info_command("u"),
        e.playlist_info_command("u"),
        e.search_command("q", 3),
    ] {
        assert_eq!(&args[..2], &runtime[..], "every command starts with the runtime arguments");
    }
}

#[test]
fn first_attempt_of_plain_video() {
    let args = download_args(None, &options(), "https://youtu.be/x", false);
    let expected: Vec<&str> = vec![
        "--newline", "--no-color", "-f", "best[height<=1080]", "--socket-timeout", "30", "--retries", "10",
        "-o", "/tmp/out/%(title)s.%(ext)s", "--windows-filenames", "--replace-in-metadata", "title", "\\.+$", "",
        "https://youtu.be/x",
    ];
    assert_eq!(args, expected);
}

#[test]
fn audio_download_with_bitrate_cap() {
    let mut o = options();
    o.media_type = Some(MediaTypeHint::Audio);
    o.format = Some(Format::Audio(AudioFormat::Ogg));
    o.quality = Some(Quality::Audio(AudioQuality::Kbps192));
    o.ffmpeg_path = Some("/bin/ffmpeg".to_string());
    let args = download_args(None, &o, "u", false);
    let expected: Vec<&str> = vec![
        "--newline", "--no-color", "--ffmpeg-location", "/bin/ffmpeg", "-f", "bestaudio[abr<=192]/bestaudio",
        "-x", "--audio-format", "vorbis", "--socket-timeout", "30", "--retries", "10", "-o",
        "/tmp/out/%(title)s.%(ext)s", "--windows-filenames", "--replace-in-metadata", "title", "\\.+$", "", "u",
    ];
    assert_eq!(args, expected);
    let retry = download_args(None, &o, "u", true);
    assert!(retry.windows(2).any(|w| w[0] == "--audio-format" && w[1] == "mp3"), "the retry extracts mp3");
}

#[test]
fn mov_video_with_ffmpeg_merges() {
    let mut o = options();
    o.format = Some(Format::Video(VideoFormat::Mov));
    o.quality = Some(Quality::Video(VideoQuality::P720));
    o.ffmpeg_path = Some("ff".to_string());
    o.embed_thumbnail = true;
    o.embed_metadata = true;
    o.embed_subtitles = true;
    let args = download_args(None, &o, "u", false);
    assert!(args.contains(&"bestvideo[vcodec^=avc1][ext=mp4][height<=720]+bestaudio[ext=m4a]/best[height<=720]".to_string()));
    assert!(args.windows(2).any(|w| w[0] == "--merge-output-format" && w[1] == "mov"));
    assert!(args.contains(&"--embed-thumbnail".to_string()));
    assert!(args.contains(&"--embed-metadata".to_string()));
    assert!(args.contains(&"--write-sub".to_string()));
    let retry = download_args(None, &o, "u", true);
    assert!(retry.contains(&"bestvideo[height<=720]+bestaudio/best[height<=720]".to_string()));
}

#[test]
fn wav_never_embeds_thumbnail() {
    let mut o = options();
    o.format = Some(Format::Audio(AudioFormat::Wav));
    o.embed_thumbnail = true;
    let args = download_args(None, &o, "u", false);
    assert!(!args.contains(&"--embed-thumbnail".to_string()));
    assert_eq!(args.last().unwrap(), "u");
}

#[test]
fn downloaded_path_prefers_final_destination() {
    let out = "[youtube] abc: Downloading\n[download] Destination: /d/song.webm\n[ExtractAudio] Destination: /d/song.mp3\n";
    assert_eq!(extract_downloaded_path(out, "/d"), "/d/song.mp3");
}

#[test]
fn downloaded_path_falls_back_to_intermediate() {
    let out = "[download] Destination: /d/clip.m4a\r\n[download] 100%\r\n";
    assert_eq!(extract_downloaded_path(out, "/d"), "/d/clip.m4a");
}

#[test]
fn downloaded_path_already_downloaded() {
    let out = "[download] /d/a b.mp4 has already been downloaded\n";
    assert_eq!(extract_downloaded_path(out, "/d"), "/d/a b.mp4");
}

#[test]
fn downloaded_path_unknown() {
    assert_eq!(extract_downloaded_path("", "/d"), "/d/unknown");
    assert_eq!(extract_downloaded_path("nothing here\n", "out"), "out/unknown");
}

#[test]
fn attempt_outcomes() {
    assert!(matches!(first_attempt_outcome(true, "anything 403"), AttemptOutcome::Finished));
    assert!(matches!(
        first_attempt_outcome(false, "ERROR: HTTP Error 403: Forbidden"),
        AttemptOutcome::RetryWithAndroidClient
    ));
    match first_attempt_outcome(false, "ERROR: Video unavailable") {
        AttemptOutcome::Failed(SourisError::DownloadFailed { reason }) => assert_eq!(reason, "ERROR: Video unavailable"),
        _ => panic!("expected a failure"),
    }
}

fn entry() -> YtDlpEntry {
    YtDlpEntry {
        id: Some("abc".to_string()),
        title: None,
        url: None,
        extractor_key: None,
        thumbnail: Some("t.jpg".to_string()),
        duration: Some(61),
        uploader: None,
        entry_type: None,
        vcodec: Some("avc1".to_string()),
        formats: Some(vec![
            YtDlpFormat {
                format_id: Some("140".to_string()),
                ext: Some("m4a".to_string()),
                acodec: Some("mp4a".to_string()),
                vcodec: Some("none".to_string()),
                abr: Some(129),
                resolution: None,
                filesize: Some(1000),
            },
            YtDlpFormat {
                format_id: None,
                ext: None,
                acodec: None,
                vcodec: Some("vp9".to_string()),
                abr: None,
                resolution: Some("1920x1080".to_string()),
                filesize: None,
            },
        ]),
        subtitles: vec![(
            "en".to_string(),
            vec![
                YtDlpSubtitle { ext: Some("vtt".to_string()), url: Some("s".to_string()) },
                YtDlpSubtitle { ext: None, url: Some("dropped".to_string()) },
            ],
        )],
    }
}

#[test]
fn media_info_from_json_entry() {
    let info = media_info_from(&entry());
    assert_eq!(info.id, "abc");
    assert_eq!(info.title, "Unknown");
    assert_eq!(info.platform, "YouTube");
    assert_eq!(info.media_type, MediaType::Video);
    assert_eq!(info.duration, Some(61));
    assert_eq!(info.formats.len(), 2);
    assert_eq!(info.formats[0].media_type, MediaType::Audio);
    assert_eq!(info.formats[0].abr, Some(129));
    assert_eq!(info.formats[1].media_type, MediaType::Video);
    assert_eq!(info.formats[1].format_id, "");
    assert_eq!(info.subtitles.len(), 1);
    assert_eq!(info.subtitles[0].0, "en");
    assert_eq!(info.subtitles[0].1.len(), 1);
    assert_eq!(info.subtitles[0].1[0].ext, "vtt");
    let mut e = entry();
    e.entry_type = Some("playlist".to_string());
    assert_eq!(media_info_from(&e).media_type, MediaType::Playlist);
    e.entry_type = None;
    e.vcodec = Some("none".to_string());
    assert_eq!(media_info_from(&e).media_type, MediaType::Audio);
}

#[test]
fn search_item_defaults_to_watch_url() {
    let item = search_item_from(&entry());
    assert_eq!(item.url, "https://youtube.com/watch?v=abc");
    assert_eq!(item.platform, "YouTube");
    let mut e = entry();
    e.url = Some("https://x/y".to_string());
    e.extractor_key = Some("Youtube".to_string());
    let item = search_item_from(&e);
    assert_eq!(item.url, "https://x/y");
    assert_eq!(item.platform, "Youtube");
}

#[test]
fn search_command_asks_for_limit() {
    let e = YouTubeExtractor::new(YtDlp::new("y", None, "stable", None));
    assert_eq!(e.search_command("lofi beats", 5), vec!["--dump-json", "--flat-playlist", "--no-download", "ytsearch5:lofi beats"]);
    assert_eq!(e.info_command("u"), vec!["--dump-json", "--no-download", "u"]);
}

#[test]
fn downloaded_path_prefers_extract_audio_destination() {
    let out = "[download] Destination: /o/a.mp4\n[ExtractAudio] Destination: /o/a.mp3\n";
    assert_eq!(extract_downloaded_path(out, "/o"), "/o/a.mp3");
    let out = "[download] Destination: /o/a.mp4\n[download] 100%\n";
    assert_eq!(extract_downloaded_path(out, "/o"), "/o/a.mp4");
}
