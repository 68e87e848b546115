//! Downloading only the subtitles of a video with yt-dlp.

use vstd::prelude::*;
use crate::deps::yt_dlp::strings_view;
use crate::error::SourisError;
use crate::extractors::youtube::output_template;
use crate::text::{concat2, owned};

verus! {

/// The yt-dlp arguments that fetch the subtitles of `url` (uploaded and
/// automatic, as WebVTT) into `output_dir`, without the media.
pub fn subtitle_args(url: &str, output_dir: &str) -> (args: Vec<String>)
    ensures
        strings_view(args@) == seq![
            "--write-sub"@,
            "--write-auto-sub"@,
            "--sub-format"@,
            "vtt"@,
            "--skip-download"@,
            "-o"@,
            output_template(output_dir@),
            url@,
        ],
{
    let mut args: Vec<String> = Vec::new();
    args.push(owned("--write-sub"));
    args.push(owned("--write-auto-sub"));
    args.push(owned("--sub-format"));
    args.push(owned("vtt"));
    args.push(owned("--skip-download"));
    args.push(owned("-o"));
    args.push(concat2(output_dir, "/%(title)s.%(ext)s"));
    args.push(owned(url));
    assert(strings_view(args@) =~= seq![
        "--write-sub"@,
        "--write-auto-sub"@,
        "--sub-format"@,
        "vtt"@,
        "--skip-download"@,
        "-o"@,
        output_template(output_dir@),
        url@,
    ]);
    args
}

/// The error when yt-dlp exits unsuccessfully while fetching subtitles.
pub fn subtitles_failed() -> (e: SourisError)
    ensures
        e matches SourisError::DownloadFailed { reason } && reason@ == "Subtitle download failed"@,
{
    SourisError::DownloadFailed { reason: owned("Subtitle download failed") }
}

} // verus!
