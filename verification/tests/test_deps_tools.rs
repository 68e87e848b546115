use souris_dw::deps::path::{export_line, set_content_line, with_bin_dir, without_bin_dir};
use souris_dw::deps::versions::{cached_version, latest_release_url, release_version, strip_v, version_cache_file_name};
use souris_dw::deps::{deno, ffmpeg, yt_dlp};
use souris_dw::SourisError;

#[test]
fn release_lookup_helpers() {
    assert_eq!(latest_release_url("yt-dlp/yt-dlp"), "https://api.github.com/repos/yt-dlp/yt-dlp/releases/latest");
    assert_eq!(version_cache_file_name("denoland/deno"), "denoland-deno-version.txt");
    assert_eq!(strip_v("vv1.2"), "1.2");
    assert_eq!(release_version(Some("v2.1.0"), "deno").unwrap(), "2.1.0");
    match release_version(None, "deno") {
        Err(SourisError::DependencyUpdateFailed { name, reason }) => {
            assert_eq!(name, "deno");
            assert_eq!(reason, "No tag_name in response");
        }
        _ => panic!("no tag"),
    }
    assert_eq!(cached_version(" 2024.1 \n", Some(10)).as_deref(), Some("2024.1"));
    assert_eq!(cached_version("2024.1", Some(86400)), None);
    assert_eq!(cached_version("  ", Some(1)), None);
    assert_eq!(cached_version("2024.1", None), None);
}

#[test]
fn reported_versions() {
    assert_eq!(ffmpeg::reported_version("ffmpeg version 6.1.1-static https://x\nbuilt with gcc"), "6.1.1-static");
    assert_eq!(ffmpeg::reported_version(""), "unknown");
    assert_eq!(ffmpeg::reported_version("ffmpeg version\n"), "unknown");
    assert_eq!(deno::reported_version("deno 2.1.4 (stable)\nv8 13\n"), "deno 2.1.4 (stable)");
    assert_eq!(deno::reported_version(""), "unknown");
    assert_eq!(yt_dlp::reported_version(" 2024.12.13\n").unwrap(), "2024.12.13");
    assert!(matches!(yt_dlp::reported_version("\n"), Err(SourisError::DependencyNotFound { .. })));
}

#[test]
fn update_decisions() {
    assert!(yt_dlp::needs_update(None, "2024.1"));
    assert!(!yt_dlp::needs_update(Some("v2024.1"), "2024.1"));
    assert!(yt_dlp::needs_update(Some("2023.1"), "2024.1"));
    assert!(ffmpeg::needs_update(None, "6.1"));
    assert!(!ffmpeg::needs_update(Some("6.1"), "6.1"));
    assert!(!deno::needs_update(Some("v2.1"), "2.1"));
    assert!(deno::needs_update(None, "2.1"));
    assert!(ffmpeg::should_fetch_ffmpeg(false, None, false));
    assert!(ffmpeg::should_fetch_ffmpeg(true, None, false));
    assert!(!ffmpeg::should_fetch_ffmpeg(true, Some("6.1"), false));
    assert!(ffmpeg::should_fetch_ffmpeg(true, Some("6.1"), true));
    assert!(!ffmpeg::should_fetch_ffmpeg(true, Some("latest"), true));
    assert!(ffmpeg::should_fetch_ffprobe(true, true));
    assert!(!ffmpeg::should_fetch_ffprobe(true, false));
}

#[test]
fn profile_edits() {
    assert_eq!(export_line("/b"), "\n# Added by souris-dw\nexport PATH=\"/b:$PATH\"\n");
    assert_eq!(set_content_line("/b"), "\n# Added by souris-dw\nset -x PATH \"/b\" $PATH\n");
    let added = with_bin_dir("alias x=y", "/home/u/.bashrc", "/opt/bin").unwrap();
    assert_eq!(added, "alias x=y\n# Added by souris-dw\nexport PATH=\"/opt/bin:$PATH\"\n");
    assert_eq!(with_bin_dir(&added, "/home/u/.bashrc", "/opt/bin"), None);
    let fish = with_bin_dir("", "/home/u/.config/fish/config.fish", "/opt/bin").unwrap();
    assert!(fish.contains("set -x PATH \"/opt/bin\" $PATH"));
    assert_eq!(without_bin_dir(&added, "/opt/bin").as_deref(), Some("alias x=y"));
    assert_eq!(without_bin_dir("alias x=y", "/opt/bin"), None);
}

#[test]
fn unavailable_tools_are_not_installed() {
    assert!(!souris_dw::deps::deno::Deno::unavailable().is_installed());
    let f = souris_dw::deps::ffmpeg::FFmpeg::unavailable();
    assert!(!f.is_installed());
    assert!(!f.ffprobe_is_installed());
    assert!(!souris_dw::deps::yt_dlp::YtDlp::new("", None, "stable", None).is_installed());
}
