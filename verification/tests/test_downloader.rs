use souris_dw::deps::deno::Deno;
use souris_dw::deps::ffmpeg::FFmpeg;
use souris_dw::deps::yt_dlp::YtDlp;
use souris_dw::extractors::resolver::Resolver;
use souris_dw::media::request::MediaTypeHint;
use souris_dw::{AudioFormat, DepManager, DownloadRequestBuilder, Format, Quality, SourisDWBuilder, VideoFormat, VideoQuality};

#[test]
fn builder_defaults_and_setters() {
    let b = SourisDWBuilder::default();
    assert!(b.auto_update);
    assert_eq!(b.yt_dlp_channel, "stable");
    assert_eq!(b.format, Some(Format::Video(VideoFormat::Mp4)));
    assert_eq!(b.quality, Some(Quality::Video(VideoQuality::P1080)));
    assert_eq!(b.parallel, 4);
    assert_eq!(b.timeout, 300);
    assert_eq!(b.max_retries, 3);
    assert!(!b.quiet_deps);
    assert!(SourisDWBuilder::new().quiet_deps(true).quiet_deps);
    let b = b.format_str("FLAC").unwrap().parallel(2).embed_subtitles(true);
    assert_eq!(b.format, Some(Format::Audio(AudioFormat::Flac)));
    assert_eq!(b.parallel, 2);
    assert!(b.embed_subtitles);
    assert!(SourisDWBuilder::new().quality_str("potato").is_err());
}

#[test]
fn requests_take_defaults_and_overrides() {
    let deps = DepManager::new(
        YtDlp::new("yt-dlp", None, "stable", None),
        FFmpeg::new("/bin/ffmpeg", "/bin/ffprobe", None),
        Deno::unavailable(),
        false,
    );
    let resolver = Resolver::new(YtDlp::new("yt-dlp", None, "stable", None), None, None);
    let dw = SourisDWBuilder::new().cookies_from_browser("firefox").finish(deps, resolver);
    assert_eq!(dw.defaults.output, "./downloads");
    let req = dw.download_audio("https://youtu.be/x");
    assert_eq!(req.media_type, Some(MediaTypeHint::Audio));
    assert_eq!(req.output.as_deref(), Some("./downloads"));
    let req = req.output("/music").embed_thumbnail(false);
    let o = dw.options_for(&req);
    assert_eq!(o.output_dir, "/music");
    assert!(!o.embed_thumbnail);
    assert!(o.embed_metadata);
    assert_eq!(o.ffmpeg_path.as_deref(), Some("/bin/ffmpeg"));
    assert_eq!(o.cookies_from_browser.as_deref(), Some("firefox"));
    let bare = DownloadRequestBuilder::new("u");
    let o = dw.options_for(&bare);
    assert_eq!(o.output_dir, "./downloads");
    assert_eq!(o.format, None);
}

#[test]
fn update_check_reports_the_dependencies() {
    let deps = DepManager::new(
        YtDlp::new("yt-dlp", Some("2025.01.01"), "stable", None),
        FFmpeg::unavailable(),
        Deno::unavailable(),
        false,
    );
    let resolver = Resolver::new(YtDlp::new("yt-dlp", None, "stable", None), None, None);
    let dw = SourisDWBuilder::new().finish(deps, resolver);
    let status = dw.update_check().unwrap();
    assert_eq!(status.len(), 3);
    assert_eq!(status[0].name, "yt-dlp");
    assert_eq!(status[0].version.as_deref(), Some("2025.01.01"));
    assert_eq!(status[1].name, "ffmpeg");
    assert!(!status[1].installed);
    assert_eq!(status[2].name, "deno");
    assert!(!status[2].installed);
}
