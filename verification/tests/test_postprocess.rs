use souris_dw::deps::platform::bin_dir_in;
use souris_dw::extractors::youtube::{thumbnail_embedded, DownloadOptions};
use souris_dw::postprocess::converter::{audio_conversion_args, codec_for_format, conversion_failed, video_conversion_args};
use souris_dw::postprocess::subtitle::{subtitle_args, subtitles_failed};
use souris_dw::{AudioFormat, Format};

#[test]
fn codecs() {
    assert_eq!(codec_for_format("mp3"), "libmp3lame");
    assert_eq!(codec_for_format("vorbis"), "libvorbis");
    assert_eq!(codec_for_format("ogg"), "libvorbis");
    assert_eq!(codec_for_format("wav"), "pcm_s16le");
    assert_eq!(codec_for_format("opus"), "libopus");
    assert_eq!(codec_for_format("MP3"), "copy");
}

#[test]
fn conversion_command_lines() {
    assert_eq!(audio_conversion_args("in.webm", "out.flac", "flac"), vec!["-i", "in.webm", "-vn", "-acodec", "flac", "out.flac"]);
    assert_eq!(video_conversion_args("a.mkv", "b.mp4"), vec!["-i", "a.mkv", "-c:v", "libx264", "-c:a", "aac", "b.mp4"]);
    assert_eq!(conversion_failed(true).to_string(), "FFmpeg error: Audio conversion failed");
    assert_eq!(conversion_failed(false).to_string(), "FFmpeg error: Video conversion failed");
}

#[test]
fn subtitle_command_line() {
    assert_eq!(
        subtitle_args("u", "/subs"),
        vec!["--write-sub", "--write-auto-sub", "--sub-format", "vtt", "--skip-download", "-o", "/subs/%(title)s.%(ext)s", "u"]
    );
    assert_eq!(subtitles_failed().to_string(), "Download failed: Subtitle download failed");
}

#[test]
fn dependency_directory() {
    assert_eq!(bin_dir_in(Some("/data/app"), "/tmp"), "/data/app/bin");
    assert_eq!(bin_dir_in(None, "/tmp"), "/tmp/souris-dw/bin");
}

#[test]
fn thumbnail_choice() {
    let mut o = DownloadOptions {
        format: Some(Format::Audio(AudioFormat::Wav)),
        quality: None,
        output_dir: "d".into(),
        embed_metadata: false,
        embed_thumbnail: true,
        embed_subtitles: false,
        media_type: None,
        ffmpeg_path: None,
        cookies_file: None,
        cookies_from_browser: None,
    };
    assert!(!thumbnail_embedded(&o));
    o.format = Some(Format::Audio(AudioFormat::Flac));
    assert!(thumbnail_embedded(&o));
    o.format = None;
    assert!(thumbnail_embedded(&o));
    o.embed_thumbnail = false;
    assert!(!thumbnail_embedded(&o));
}
