//! Conversions with ffmpeg: the audio codec of each target format and the
//! command lines that convert a file.

use vstd::prelude::*;
use crate::deps::yt_dlp::strings_view;
use crate::error::SourisError;
use crate::text::{owned, str_eq};

verus! {

/// The ffmpeg audio encoder for a target format name; `copy` (keep the
/// stream as it is) for names it does not know.
pub open spec fn codec_of(format: Seq<char>) -> Seq<char> {
    if format == "mp3"@ {
        "libmp3lame"@
    } else if format == "aac"@ {
        "aac"@
    } else if format == "flac"@ {
        "flac"@
    } else if format == "ogg"@ || format == "vorbis"@ {
        "libvorbis"@
    } else if format == "opus"@ {
        "libopus"@
    } else if format == "wav"@ {
        "pcm_s16le"@
    } else {
        "copy"@
    }
}

/// The ffmpeg audio encoder for a target format name (see [`codec_of`]).
pub fn codec_for_format(format: &str) -> (c: &'static str)
    ensures
        c@ == codec_of(format@),
{
    if str_eq(format, "mp3") {
        "libmp3lame"
    } else if str_eq(format, "aac") {
        "aac"
    } else if str_eq(format, "flac") {
        "flac"
    } else if str_eq(format, "ogg") || str_eq(format, "vorbis") {
        "libvorbis"
    } else if str_eq(format, "opus") {
        "libopus"
    } else if str_eq(format, "wav") {
        "pcm_s16le"
    } else {
        "copy"
    }
}

/// The ffmpeg arguments that convert `input` to audio in `format` at
/// `output`, dropping any video.
pub fn audio_conversion_args(input: &str, output: &str, format: &str) -> (args: Vec<String>)
    ensures
        strings_view(args@) == seq!["-i"@, input@, "-vn"@, "-acodec"@, codec_of(format@), output@],
{
    let mut args: Vec<String> = Vec::new();
    args.push(owned("-i"));
    args.push(owned(input));
    args.push(owned("-vn"));
    args.push(owned("-acodec"));
    args.push(owned(codec_for_format(format)));
    args.push(owned(output));
    assert(strings_view(args@) =~= seq!["-i"@, input@, "-vn"@, "-acodec"@, codec_of(format@), output@]);
    args
}

/// The ffmpeg arguments that convert `input` to H.264 video with AAC audio
/// at `output`.
pub fn video_conversion_args(input: &str, output: &str) -> (args: Vec<String>)
    ensures
        strings_view(args@) == seq!["-i"@, input@, "-c:v"@, "libx264"@, "-c:a"@, "aac"@, output@],
{
    let mut args: Vec<String> = Vec::new();
    args.push(owned("-i"));
    args.push(owned(input));
    args.push(owned("-c:v"));
    args.push(owned("libx264"));
    args.push(owned("-c:a"));
    args.push(owned("aac"));
    args.push(owned(output));
    assert(strings_view(args@) =~= seq!["-i"@, input@, "-c:v"@, "libx264"@, "-c:a"@, "aac"@, output@]);
    args
}

/// The error when ffmpeg exits unsuccessfully: `Audio conversion failed`
/// or `Video conversion failed`.
pub fn conversion_failed(audio: bool) -> (e: SourisError)
    ensures
        e matches SourisError::FFmpegError(m)
            && m@ == (if audio { "Audio conversion failed"@ } else { "Video conversion failed"@ }),
{
    if audio {
        SourisError::FFmpegError(owned("Audio conversion failed"))
    } else {
        SourisError::FFmpegError(owned("Video conversion failed"))
    }
}

} // verus!
