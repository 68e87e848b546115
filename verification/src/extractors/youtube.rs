//! YouTube through yt-dlp: the command lines that download a video, an
//! audio track or a playlist item, the retry with the Android player client
//! after an HTTP 403, and the reading of the downloaded file's path from
//! yt-dlp's output.

use vstd::prelude::*;
use crate::deps::yt_dlp::{js_runtime_args, js_runtime_arguments, opt_str_view, opt_view, strings_view, YtDlp};
use crate::media::request::MediaTypeHint;
use crate::media::types::{
    AudioFormat, AudioQuality, DownloadResult, Format, FormatInfo, MediaInfo, MediaType, Quality, SearchItem,
    SubtitleInfo, VideoFormat, VideoQuality,
};
use crate::error::SourisError;
use crate::text::{
    chars_of, concat2, concat3, contains, occurs_at, contains_str, ends_with, ends_with_chars, first_occurrence,
    first_occurrence_exec, lines, lines_of, owned, replace_all, replace_chars, slice_chars, starts_with,
    starts_with_chars, string_from_chars, trim, trim_chars,
};

verus! {

/// Extracts and downloads YouTube media with yt-dlp.
pub struct YouTubeExtractor {
    yt_dlp: YtDlp,
}

/// What a download asks of yt-dlp.
pub struct DownloadOptions {
    pub format: Option<Format>,
    pub quality: Option<Quality>,
    pub output_dir: String,
    pub embed_metadata: bool,
    pub embed_thumbnail: bool,
    pub embed_subtitles: bool,
    pub media_type: Option<MediaTypeHint>,
    pub ffmpeg_path: Option<String>,
    pub cookies_file: Option<String>,
    pub cookies_from_browser: Option<String>,
}

// ---------------------------------------------------------------- the command line

/// `flag value` when there is a value, nothing otherwise.
pub open spec fn flag_with(flag: Seq<char>, value: Option<Seq<char>>) -> Seq<Seq<char>> {
    match value {
        Some(v) => seq![flag, v],
        None => Seq::empty(),
    }
}

/// `args` when `b` holds, nothing otherwise.
pub open spec fn only_if(b: bool, args: Seq<Seq<char>>) -> Seq<Seq<char>> {
    if b { args } else { Seq::empty() }
}

/// The audio stream selector: the best audio, capped at the bitrate of an
/// audio quality other than lossless.
pub open spec fn audio_selector(q: Option<Quality>) -> Seq<char> {
    match q {
        Some(Quality::Audio(a)) => match a.spec_abr() {
            Some(x) => "bestaudio[abr<="@ + x + "]/bestaudio"@,
            None => "bestaudio"@,
        },
        _ => "bestaudio"@,
    }
}

/// The height cap of a video quality; 1080 lines when none is given.
pub open spec fn height_cap(q: Option<Quality>) -> Seq<char> {
    match q {
        Some(Quality::Video(v)) => v.spec_height(),
        _ => "1080"@,
    }
}

/// The selector of the best video and audio under a height cap; with
/// ffmpeg the streams are merged, without it a single file is taken.
pub open spec fn generic_video_selector(h: Seq<char>, ffmpeg: bool) -> Seq<char> {
    if ffmpeg {
        "bestvideo[height<="@ + h + "]+bestaudio/best[height<="@ + h + "]"@
    } else {
        "best[height<="@ + h + "]"@
    }
}

/// The selector for a video format: with ffmpeg, MOV takes H.264 in mp4
/// with m4a audio and AVI takes mp4 with m4a audio; every other case is the
/// generic selector.
pub open spec fn video_selector(vf: VideoFormat, h: Seq<char>, ffmpeg: bool) -> Seq<char> {
    if ffmpeg && vf == VideoFormat::Mov {
        "bestvideo[vcodec^=avc1][ext=mp4][height<="@ + h + "]+bestaudio[ext=m4a]/best[height<="@ + h + "]"@
    } else if ffmpeg && vf == VideoFormat::Avi {
        "bestvideo[ext=mp4][height<="@ + h + "]+bestaudio[ext=m4a]/best[height<="@ + h + "]"@
    } else {
        generic_video_selector(h, ffmpeg)
    }
}

/// The format-selection arguments. An audio download takes the audio
/// selector and extracts to the requested audio format (mp3 by default, and
/// always mp3 on the retry). Otherwise an audio format extracts to itself,
/// a video format takes its selector (the generic one on the retry) and is
/// merged into its container when ffmpeg is at hand, and no format takes
/// the generic selector capped at 1080 lines.
pub open spec fn format_selection(audio: bool, format: Option<Format>, q: Option<Quality>, ffmpeg: bool, retry: bool) -> Seq<Seq<char>> {
    if audio {
        let target = if retry {
            "mp3"@
        } else {
            match format {
                Some(Format::Audio(af)) => af.yt_dlp_name(),
                _ => "mp3"@,
            }
        };
        seq!["-f"@, audio_selector(q), "-x"@, "--audio-format"@, target]
    } else {
        match format {
            Some(Format::Audio(af)) => seq!["-f"@, audio_selector(q), "-x"@, "--audio-format"@, af.yt_dlp_name()],
            Some(Format::Video(vf)) => seq![
                "-f"@,
                if retry { generic_video_selector(height_cap(q), ffmpeg) } else { video_selector(vf, height_cap(q), ffmpeg) },
            ] + only_if(ffmpeg, seq!["--merge-output-format"@, vf.name()]),
            None => seq!["-f"@, generic_video_selector("1080"@, ffmpeg)],
        }
    }
}

/// Whether the thumbnail is embedded: asked for, and the format (if any)
/// can carry one.
pub open spec fn embeds_thumbnail(o: DownloadOptions) -> bool {
    o.embed_thumbnail && match o.format {
        Some(f) => f.spec_supports_thumbnail(),
        None => true,
    }
}

/// Whether a download with the options `o` embeds the thumbnail (see
/// [`embeds_thumbnail`]).
pub fn thumbnail_embedded(o: &DownloadOptions) -> (b: bool)
    ensures
        b == embeds_thumbnail(*o),
{
    o.embed_thumbnail && match o.format {
        Some(f) => f.supports_thumbnail(),
        None => true,
    }
}

/// The output template: `<output_dir>/<title>.<ext>`.
pub open spec fn output_template(dir: Seq<char>) -> Seq<char> {
    dir + "/%(title)s.%(ext)s"@
}

/// The arguments after format selection, up to and including the URL.
pub open spec fn trailing_arguments(o: DownloadOptions, url: Seq<char>) -> Seq<Seq<char>> {
    seq!["--socket-timeout"@, "30"@, "--retries"@, "10"@]
        + seq!["-o"@, output_template(o.output_dir@)]
        + seq!["--windows-filenames"@]
        + seq!["--replace-in-metadata"@, "title"@, "\\.+$"@, ""@]
        + only_if(o.embed_metadata, seq!["--embed-metadata"@])
        + only_if(embeds_thumbnail(o), seq!["--embed-thumbnail"@])
        + only_if(o.embed_subtitles, seq!["--write-sub"@, "--write-auto-sub"@, "--sub-format"@, "vtt"@])
        + seq![url]
}

/// The arguments that precede format selection.
pub open spec fn leading_arguments(deno: Option<Seq<char>>, o: DownloadOptions, retry: bool) -> Seq<Seq<char>> {
    js_runtime_arguments(deno)
        + seq!["--newline"@, "--no-color"@]
        + only_if(retry, seq!["--extractor-args"@, "youtube:player_client=android"@])
        + flag_with("--ffmpeg-location"@, opt_view(o.ffmpeg_path))
        + flag_with("--cookies"@, opt_view(o.cookies_file))
        + flag_with("--cookies-from-browser"@, opt_view(o.cookies_from_browser))
}

/// The yt-dlp command line of a download of `url`: the first attempt, or
/// the retry with the Android player client after an HTTP 403.
pub open spec fn download_arguments(deno: Option<Seq<char>>, o: DownloadOptions, url: Seq<char>, retry: bool) -> Seq<Seq<char>> {
    leading_arguments(deno, o, retry)
        + format_selection(o.media_type == Some(MediaTypeHint::Audio), o.format, o.quality, o.ffmpeg_path is Some, retry)
        + trailing_arguments(o, url)
}

/// Appends one argument.
fn push_arg(args: &mut Vec<String>, a: &str)
    ensures
        strings_view(final(args)@) == strings_view(old(args)@).push(a@),
{
    let ghost before = args@;
    args.push(owned(a));
    assert(strings_view(args@) =~= strings_view(before).push(a@));
}

/// Appends a flag and its value when there is a value.
fn push_flag_with(args: &mut Vec<String>, flag: &str, value: Option<&str>)
    ensures
        strings_view(final(args)@) == strings_view(old(args)@) + flag_with(flag@, opt_str_view(value)),
{
    let ghost before = strings_view(args@);
    match value {
        Some(v) => {
            push_arg(args, flag);
            push_arg(args, v);
            assert(strings_view(args@) =~= before + flag_with(flag@, opt_str_view(value)));
        },
        None => {
            assert(strings_view(args@) =~= before + flag_with(flag@, opt_str_view(value)));
        },
    }
}

fn audio_selector_string(q: Option<Quality>) -> (s: String)
    ensures
        s@ == audio_selector(q),
{
    match q {
        Some(Quality::Audio(a)) => match a.abr() {
            Some(x) => concat3("bestaudio[abr<=", x, "]/bestaudio"),
            None => owned("bestaudio"),
        },
        _ => owned("bestaudio"),
    }
}

fn height_cap_str(q: Option<Quality>) -> (s: &'static str)
    ensures
        s@ == height_cap(q),
{
    match q {
        Some(Quality::Video(v)) => v.height(),
        _ => "1080",
    }
}

fn generic_video_selector_string(h: &str, ffmpeg: bool) -> (s: String)
    ensures
        s@ == generic_video_selector(h@, ffmpeg),
{
    if ffmpeg {
        let a = concat3("bestvideo[height<=", h, "]+bestaudio/best[height<=");
        concat3(a.as_str(), h, "]")
    } else {
        concat3("best[height<=", h, "]")
    }
}

fn video_selector_string(vf: VideoFormat, h: &str, ffmpeg: bool) -> (s: String)
    ensures
        s@ == video_selector(vf, h@, ffmpeg),
{
    if ffmpeg && vf == VideoFormat::Mov {
        let a = concat3("bestvideo[vcodec^=avc1][ext=mp4][height<=", h, "]+bestaudio[ext=m4a]/best[height<=");
        concat3(a.as_str(), h, "]")
    } else if ffmpeg && vf == VideoFormat::Avi {
        let a = concat3("bestvideo[ext=mp4][height<=", h, "]+bestaudio[ext=m4a]/best[height<=");
        concat3(a.as_str(), h, "]")
    } else {
        generic_video_selector_string(h, ffmpeg)
    }
}

fn push_format_selection(args: &mut Vec<String>, audio: bool, format: Option<Format>, q: Option<Quality>, ffmpeg: bool, retry: bool)
    ensures
        strings_view(final(args)@) == strings_view(old(args)@) + format_selection(audio, format, q, ffmpeg, retry),
{
    let ghost before = strings_view(args@);
    if audio {
        let sel = audio_selector_string(q);
        let target: &str = if retry {
            "mp3"
        } else {
            match format {
                Some(Format::Audio(af)) => af.yt_dlp_format(),
                _ => "mp3",
            }
        };
        push_arg(args, "-f");
        push_arg(args, sel.as_str());
        push_arg(args, "-x");
        push_arg(args, "--audio-format");
        push_arg(args, target);
    } else {
        match format {
            Some(Format::Audio(af)) => {
                let sel = audio_selector_string(q);
                push_arg(args, "-f");
                push_arg(args, sel.as_str());
                push_arg(args, "-x");
                push_arg(args, "--audio-format");
                push_arg(args, af.yt_dlp_format());
            },
            Some(Format::Video(vf)) => {
                let h = height_cap_str(q);
                let sel = if retry { generic_video_selector_string(h, ffmpeg) } else { video_selector_string(vf, h, ffmpeg) };
                push_arg(args, "-f");
                push_arg(args, sel.as_str());
                if ffmpeg {
                    let name = vf.to_string();
                    push_arg(args, "--merge-output-format");
                    push_arg(args, name.as_str());
                }
            },
            None => {
                let sel = generic_video_selector_string("1080", ffmpeg);
                push_arg(args, "-f");
                push_arg(args, sel.as_str());
            },
        }
    }
    assert(strings_view(args@) =~= before + format_selection(audio, format, q, ffmpeg, retry));
}

fn push_leading(args: &mut Vec<String>, deno: Option<&str>, o: &DownloadOptions, retry: bool)
    requires
        old(args)@.len() == 0,
    ensures
        strings_view(final(args)@) == leading_arguments(opt_str_view(deno), *o, retry),
{
    let runtime = js_runtime_args(deno);
    let mut rt = runtime;
    args.append(&mut rt);
    let ghost a0 = strings_view(args@);
    assert(a0 =~= js_runtime_arguments(opt_str_view(deno)));
    push_arg(args, "--newline");
    push_arg(args, "--no-color");
    let ghost a1 = strings_view(args@);
    assert(a1 =~= a0 + seq!["--newline"@, "--no-color"@]);
    if retry {
        push_arg(args, "--extractor-args");
        push_arg(args, "youtube:player_client=android");
    }
    let ghost a2 = strings_view(args@);
    assert(a2 =~= a1 + only_if(retry, seq!["--extractor-args"@, "youtube:player_client=android"@]));
    push_flag_with(args, "--ffmpeg-location", crate::deps::yt_dlp::opt_as_str(&o.ffmpeg_path));
    push_flag_with(args, "--cookies", crate::deps::yt_dlp::opt_as_str(&o.cookies_file));
    push_flag_with(args, "--cookies-from-browser", crate::deps::yt_dlp::opt_as_str(&o.cookies_from_browser));
}

fn push_trailing(args: &mut Vec<String>, o: &DownloadOptions, url: &str)
    ensures
        strings_view(final(args)@) == strings_view(old(args)@) + trailing_arguments(*o, url@),
{
    let ghost before = strings_view(args@);
    push_arg(args, "--socket-timeout");
    push_arg(args, "30");
    push_arg(args, "--retries");
    push_arg(args, "10");
    let template = concat2(o.output_dir.as_str(), "/%(title)s.%(ext)s");
    push_arg(args, "-o");
    push_arg(args, template.as_str());
    push_arg(args, "--windows-filenames");
    push_arg(args, "--replace-in-metadata");
    push_arg(args, "title");
    push_arg(args, "\\.+$");
    push_arg(args, "");
    let ghost fixed = strings_view(args@);
    assert(fixed =~= before + seq!["--socket-timeout"@, "30"@, "--retries"@, "10"@]
        + seq!["-o"@, output_template(o.output_dir@)] + seq!["--windows-filenames"@]
        + seq!["--replace-in-metadata"@, "title"@, "\\.+$"@, ""@]);
    if o.embed_metadata {
        push_arg(args, "--embed-metadata");
    }
    let ghost m = strings_view(args@);
    assert(m =~= fixed + only_if(o.embed_metadata, seq!["--embed-metadata"@]));
    let thumbnail = o.embed_thumbnail && match o.format {
        Some(f) => f.supports_thumbnail(),
        None => true,
    };
    if thumbnail {
        push_arg(args, "--embed-thumbnail");
    }
    let ghost t = strings_view(args@);
    assert(t =~= m + only_if(embeds_thumbnail(*o), seq!["--embed-thumbnail"@]));
    if o.embed_subtitles {
        push_arg(args, "--write-sub");
        push_arg(args, "--write-auto-sub");
        push_arg(args, "--sub-format");
        push_arg(args, "vtt");
    }
    let ghost st = strings_view(args@);
    assert(st =~= t + only_if(o.embed_subtitles, seq!["--write-sub"@, "--write-auto-sub"@, "--sub-format"@, "vtt"@]));
    push_arg(args, url);
    assert(strings_view(args@) =~= before + trailing_arguments(*o, url@));
}

/// The yt-dlp command line of a download of `url` (see
/// [`download_arguments`]), run with the deno at `deno` when there is one.
pub fn download_args(deno: Option<&str>, o: &DownloadOptions, url: &str, retry: bool) -> (args: Vec<String>)
    ensures
        strings_view(args@) == download_arguments(opt_str_view(deno), *o, url@, retry),
{
    let mut args: Vec<String> = Vec::new();
    push_leading(&mut args, deno, o, retry);
    let audio = match o.media_type {
        Some(MediaTypeHint::Audio) => true,
        _ => false,
    };
    push_format_selection(&mut args, audio, o.format, o.quality, o.ffmpeg_path.is_some(), retry);
    push_trailing(&mut args, o, url);
    assert(strings_view(args@) =~= download_arguments(opt_str_view(deno), *o, url@, retry));
    args
}

// ---------------------------------------------------------------- yt-dlp's report

/// The piece of `line` between the first occurrence of `marker` and the
/// next one (or the end), as `line.split(marker).nth(1)` gives it.
pub open spec fn second_piece(line: Seq<char>, marker: Seq<char>) -> Seq<char> {
    let i = first_occurrence(line, marker).unwrap();
    let after = line.subrange(i + marker.len(), line.len() as int);
    match first_occurrence(after, marker) {
        Some(j) => after.subrange(0, j),
        None => after,
    }
}

/// The file a post-processing `Destination:` line names, trimmed.
pub open spec fn destination_of(line: Seq<char>) -> Option<Seq<char>> {
    if contains(line, "Destination:"@) {
        Some(trim(second_piece(line, "Destination:"@)))
    } else {
        None
    }
}

/// Whether a destination is an intermediate download (a `.webm` or `.m4a`
/// stream that post-processing turns into the final file).
pub open spec fn is_intermediate(p: Seq<char>) -> bool {
    ends_with(p, ".webm"@) || ends_with(p, ".m4a"@)
}

/// The file a `[download] <file> has already been downloaded` line names:
/// the text before the message, without `[download]`, trimmed.
pub open spec fn already_downloaded(line: Seq<char>) -> Option<Seq<char>> {
    if starts_with(line, "[download]"@) && contains(line, "has already been downloaded"@) {
        let before = line.subrange(0, first_occurrence(line, "has already been downloaded"@).unwrap());
        Some(trim(replace_all(before, "[download]"@, ""@)))
    } else {
        None
    }
}

/// The downloaded file that the lines report, reading them in order: a
/// destination that is not intermediate, or a file already downloaded, is
/// the answer; an intermediate destination becomes the fallback; with
/// neither, the fallback is the answer.
pub open spec fn path_from_lines(ls: Seq<Seq<char>>, fallback: Seq<char>) -> Seq<char>
    decreases ls.len(),
{
    if ls.len() == 0 {
        fallback
    } else {
        let line = ls[0];
        let d = destination_of(line);
        if d is Some && !is_intermediate(d.unwrap()) {
            d.unwrap()
        } else {
            let fb = match d {
                Some(p) => p,
                None => fallback,
            };
            match already_downloaded(line) {
                Some(q) => q,
                None => path_from_lines(ls.subrange(1, ls.len() as int), fb),
            }
        }
    }
}

/// Whether a line is the one in which audio extraction names the file it
/// writes: `[ExtractAudio] Destination: <file>`.
pub open spec fn is_extract_audio_line(line: Seq<char>) -> bool {
    starts_with(line, "[ExtractAudio]"@) && contains(line, "Destination:"@)
}

/// The file that the first audio-extraction line of `ls` names, if there
/// is one.
pub open spec fn extract_audio_destination(ls: Seq<Seq<char>>) -> Option<Seq<char>>
    decreases ls.len(),
{
    if ls.len() == 0 {
        None
    } else if is_extract_audio_line(ls[0]) {
        destination_of(ls[0])
    } else {
        extract_audio_destination(ls.subrange(1, ls.len() as int))
    }
}

/// The downloaded file that yt-dlp's output reports: the file that audio
/// extraction wrote, when it ran; else what the other lines report (see
/// [`path_from_lines`]), `<output_dir>/unknown` when they report none.
pub open spec fn downloaded_path(stdout: Seq<char>, output_dir: Seq<char>) -> Seq<char> {
    match extract_audio_destination(lines(stdout)) {
        Some(p) => p,
        None => path_from_lines(lines(stdout), output_dir + "/unknown"@),
    }
}

fn second_piece_exec(line: &Vec<char>, marker: &Vec<char>) -> (r: Vec<char>)
    requires
        contains(line@, marker@),
    ensures
        r@ == second_piece(line@, marker@),
{
    let found = first_occurrence_exec(line, marker);
    let i = match found {
        Some(i) => i,
        None => 0,
    };
    assert(found is Some);
    assert(occurs_at(line@, marker@, i as int));
    assert(first_occurrence(line@, marker@) == Some(i as int));
    let n = line.len();
    let m = marker.len();
    assert(i + m <= n);
    let start = i + m;
    let after = slice_chars(line, start, n);
    match first_occurrence_exec(&after, marker) {
        Some(j) => slice_chars(&after, 0, j),
        None => after,
    }
}

fn destination_exec(line: &Vec<char>) -> (r: Option<Vec<char>>)
    ensures
        match r {
            Some(p) => destination_of(line@) == Some(p@),
            None => destination_of(line@) is None,
        },
{
    let marker = chars_of("Destination:");
    if first_occurrence_exec(line, &marker).is_some() {
        let piece = second_piece_exec(line, &marker);
        Some(trim_chars(&piece))
    } else {
        None
    }
}

fn is_intermediate_exec(p: &Vec<char>) -> (b: bool)
    ensures
        b == is_intermediate(p@),
{
    ends_with_chars(p, &chars_of(".webm")) || ends_with_chars(p, &chars_of(".m4a"))
}

fn already_downloaded_exec(line: &Vec<char>) -> (r: Option<Vec<char>>)
    ensures
        match r {
            Some(p) => already_downloaded(line@) == Some(p@),
            None => already_downloaded(line@) is None,
        },
{
    let prefix = chars_of("[download]");
    let message = chars_of("has already been downloaded");
    if !starts_with_chars(line, &prefix) {
        return None;
    }
    match first_occurrence_exec(line, &message) {
        Some(k) => {
            let before = slice_chars(line, 0, k);
            let empty: Vec<char> = Vec::new();
            let stripped = replace_chars(&before, &prefix, &empty);
            assert(empty@ =~= ""@) by {
                reveal_strlit("");
            }
            Some(trim_chars(&stripped))
        },
        None => None,
    }
}

/// A text that may be missing, as a value.
pub open spec fn opt_chars_view(o: Option<Vec<char>>) -> Option<Seq<char>> {
    match o {
        Some(v) => Some(v@),
        None => None,
    }
}

/// The file that the first audio-extraction line names, if any (see
/// [`extract_audio_destination`]).
fn extract_audio_exec(ls: &Vec<Vec<char>>) -> (r: Option<Vec<char>>)
    ensures
        opt_chars_view(r) == extract_audio_destination(crate::text::pieces_view(ls@)),
{
    let ghost all = crate::text::pieces_view(ls@);
    let prefix = chars_of("[ExtractAudio]");
    let marker = chars_of("Destination:");
    let mut i: usize = 0;
    assert(all.subrange(0, all.len() as int) =~= all);
    while i < ls.len()
        invariant
            i <= ls.len(),
            all == crate::text::pieces_view(ls@),
            prefix@ == "[ExtractAudio]"@,
            marker@ == "Destination:"@,
            extract_audio_destination(all.subrange(i as int, all.len() as int)) == extract_audio_destination(all),
        decreases ls.len() - i,
    {
        let line = &ls[i];
        let ghost rest = all.subrange(i as int, all.len() as int);
        assert(rest[0] == line@);
        assert(rest.subrange(1, rest.len() as int) =~= all.subrange(i + 1, all.len() as int));
        if starts_with_chars(line, &prefix) && first_occurrence_exec(line, &marker).is_some() {
            return destination_exec(line);
        }
        i = i + 1;
    }
    None
}

/// What the lines `ls` report, reading them in order from the fallback
/// `initial` (see [`path_from_lines`]).
fn scan_reported_path(ls: &Vec<Vec<char>>, initial: Vec<char>) -> (p: String)
    ensures
        p@ == path_from_lines(crate::text::pieces_view(ls@), initial@),
{
    let ghost all = crate::text::pieces_view(ls@);
    let ghost start = initial@;
    let mut fallback = initial;
    let mut i: usize = 0;
    assert(all.subrange(0, all.len() as int) =~= all);
    while i < ls.len()
        invariant
            i <= ls.len(),
            all == crate::text::pieces_view(ls@),
            start == initial@,
            path_from_lines(all.subrange(i as int, all.len() as int), fallback@) == path_from_lines(all, start),
        decreases ls.len() - i,
    {
        let line = &ls[i];
        let ghost rest = all.subrange(i as int, all.len() as int);
        assert(rest[0] == line@);
        assert(rest.subrange(1, rest.len() as int) =~= all.subrange(i + 1, all.len() as int));
        let d = destination_exec(line);
        match d {
            Some(p) => {
                if !is_intermediate_exec(&p) {
                    return string_from_chars(&p);
                }
                fallback = p;
            },
            None => {},
        }
        match already_downloaded_exec(line) {
            Some(q) => {
                return string_from_chars(&q);
            },
            None => {},
        }
        i = i + 1;
    }
    string_from_chars(&fallback)
}

/// The downloaded file that yt-dlp's output `stdout` reports (see
/// [`downloaded_path`]).
pub fn extract_downloaded_path(stdout: &str, output_dir: &str) -> (p: String)
    ensures
        p@ == downloaded_path(stdout@, output_dir@),
{
    let ls = lines_of(&chars_of(stdout));
    match extract_audio_exec(&ls) {
        Some(p) => string_from_chars(&p),
        None => {
            let fallback = chars_of(concat2(output_dir, "/unknown").as_str());
            scan_reported_path(&ls, fallback)
        },
    }
}

/// What follows a finished attempt to download.
pub enum AttemptOutcome {
    /// The download is done; its report is read.
    Finished,
    /// YouTube refused with HTTP 403: try again with the Android player client.
    RetryWithAndroidClient,
    /// The download failed.
    Failed(SourisError),
}

/// Whether yt-dlp's error output tells of an HTTP 403.
pub open spec fn reports_forbidden(stderr: Seq<char>) -> bool {
    contains(stderr, "403"@) || contains(stderr, "HTTP Error 403"@)
}

/// What follows the first attempt to download: done when yt-dlp
/// succeeded, a retry with the Android player client after an HTTP 403,
/// and otherwise a failure that carries yt-dlp's error output.
pub fn first_attempt_outcome(succeeded: bool, stderr: &str) -> (r: AttemptOutcome)
    ensures
        succeeded ==> r is Finished,
        !succeeded && reports_forbidden(stderr@) ==> r is RetryWithAndroidClient,
        !succeeded && !reports_forbidden(stderr@) ==> (r matches AttemptOutcome::Failed(
            SourisError::DownloadFailed { reason },
        ) && reason@ == stderr@),
{
    if succeeded {
        AttemptOutcome::Finished
    } else if contains_str(stderr, "403") || contains_str(stderr, "HTTP Error 403") {
        AttemptOutcome::RetryWithAndroidClient
    } else {
        AttemptOutcome::Failed(SourisError::DownloadFailed { reason: owned(stderr) })
    }
}

/// The result of a download of one URL whose attempts are over: yt-dlp's
/// output names the file (the attempt after a 403 is taken as it came).
pub fn finished_download(stdout: &str, output_dir: &str) -> (r: DownloadResult)
    ensures
        r.success,
        r.path matches Some(p) && p@ == downloaded_path(stdout@, output_dir@),
        r.size is None,
        r.error is None,
        r.elapsed is None,
{
    DownloadResult {
        success: true,
        path: Some(extract_downloaded_path(stdout, output_dir)),
        size: None,
        error: None,
        elapsed: None,
    }
}

/// The result of a download of one playlist item whose attempts are over:
/// a success that names no file.
pub fn finished_playlist_item() -> (r: DownloadResult)
    ensures
        r.success,
        r.path is None,
        r.size is None,
        r.error is None,
        r.elapsed is None,
{
    DownloadResult { success: true, path: None, size: None, error: None, elapsed: None }
}

// ---------------------------------------------------------------- yt-dlp's JSON

/// What the logic reads of one JSON object that yt-dlp prints for an item:
/// each field as it was found (`None` where the key is missing or does not
/// hold a string or an unsigned integer).
pub struct YtDlpEntry {
    pub id: Option<String>,
    pub title: Option<String>,
    pub url: Option<String>,
    pub extractor_key: Option<String>,
    pub thumbnail: Option<String>,
    pub duration: Option<u64>,
    pub uploader: Option<String>,
    /// The `_type` key.
    pub entry_type: Option<String>,
    pub vcodec: Option<String>,
    /// The `formats` key, when it holds an array.
    pub formats: Option<Vec<YtDlpFormat>>,
    /// The `subtitles` key: each language whose value is an array, in the
    /// order of the object.
    pub subtitles: Vec<(String, Vec<YtDlpSubtitle>)>,
}

/// One element of an item's `formats` array.
pub struct YtDlpFormat {
    pub format_id: Option<String>,
    pub ext: Option<String>,
    pub acodec: Option<String>,
    pub vcodec: Option<String>,
    /// The average audio bitrate, in whole kbit/s.
    pub abr: Option<u32>,
    pub resolution: Option<String>,
    pub filesize: Option<u64>,
}

/// One element of a language's subtitle array.
pub struct YtDlpSubtitle {
    pub ext: Option<String>,
    pub url: Option<String>,
}

/// The text of an optional string, or `default` when there is none.
pub open spec fn text_or(o: Option<String>, default: Seq<char>) -> Seq<char> {
    match o {
        Some(s) => s@,
        None => default,
    }
}

/// The kind of an item: a playlist when `_type` says so, a video when it
/// has a video codec other than `none`, audio otherwise.
pub open spec fn entry_media_type(e: YtDlpEntry) -> MediaType {
    if opt_view(e.entry_type) == Some("playlist"@) {
        MediaType::Playlist
    } else if e.vcodec is Some && e.vcodec.unwrap()@ != "none"@ {
        MediaType::Video
    } else {
        MediaType::Audio
    }
}

/// The kind of a format: audio when it has no video codec or `none`.
pub open spec fn format_media_type(f: YtDlpFormat) -> MediaType {
    if f.vcodec is None || f.vcodec.unwrap()@ == "none"@ {
        MediaType::Audio
    } else {
        MediaType::Video
    }
}

/// Whether `info` describes the format `f` of yt-dlp's JSON.
pub open spec fn describes_format(info: FormatInfo, f: YtDlpFormat) -> bool {
    &&& info.format_id@ == text_or(f.format_id, ""@)
    &&& info.ext@ == text_or(f.ext, ""@)
    &&& info.media_type == format_media_type(f)
    &&& opt_view(info.acodec) == opt_view(f.acodec)
    &&& opt_view(info.vcodec) == opt_view(f.vcodec)
    &&& info.abr == f.abr
    &&& opt_view(info.resolution) == opt_view(f.resolution)
    &&& info.filesize == f.filesize
}

/// The subtitle tracks that are kept: those that name their extension.
pub open spec fn kept_subtitles(subs: Seq<YtDlpSubtitle>) -> Seq<(Seq<char>, Option<Seq<char>>)>
    decreases subs.len(),
{
    if subs.len() == 0 {
        Seq::empty()
    } else {
        let init = kept_subtitles(subs.drop_last());
        match subs.last().ext {
            Some(ext) => init.push((ext@, opt_view(subs.last().url))),
            None => init,
        }
    }
}

/// The extension and URL of each subtitle track.
pub open spec fn subtitle_views(subs: Seq<SubtitleInfo>) -> Seq<(Seq<char>, Option<Seq<char>>)> {
    subs.map_values(|t: SubtitleInfo| (t.ext@, opt_view(t.url)))
}

/// Whether `info` describes the item `e` of yt-dlp's JSON.
pub open spec fn describes_entry(info: MediaInfo, e: YtDlpEntry) -> bool {
    &&& info.id@ == text_or(e.id, ""@)
    &&& info.title@ == text_or(e.title, "Unknown"@)
    &&& info.platform@ == text_or(e.extractor_key, "YouTube"@)
    &&& info.media_type == entry_media_type(e)
    &&& info.duration == e.duration
    &&& opt_view(info.uploader) == opt_view(e.uploader)
    &&& opt_view(info.thumbnail) == opt_view(e.thumbnail)
    &&& info.formats.len() == (match e.formats {
        Some(fs) => fs.len(),
        None => 0,
    })
    &&& forall|i: int| 0 <= i < info.formats.len() ==> describes_format(#[trigger] info.formats[i], e.formats.unwrap()[i])
    &&& info.subtitles.len() == e.subtitles.len()
    &&& forall|i: int| 0 <= i < info.subtitles.len() ==> {
        &&& (#[trigger] info.subtitles[i]).0@ == e.subtitles[i].0@
        &&& subtitle_views(info.subtitles[i].1@) == kept_subtitles(e.subtitles[i].1@)
    }
    &&& info.playlist is None
}

fn text_or_exec(o: &Option<String>, default: &str) -> (r: String)
    ensures
        r@ == text_or(*o, default@),
{
    match o {
        Some(s) => owned(s.as_str()),
        None => owned(default),
    }
}

fn opt_owned(o: &Option<String>) -> (r: Option<String>)
    ensures
        opt_view(r) == opt_view(*o),
{
    match o {
        Some(s) => Some(owned(s.as_str())),
        None => None,
    }
}

fn is_text(o: &Option<String>, t: &str) -> (b: bool)
    ensures
        b == (opt_view(*o) == Some(t@)),
{
    match o {
        Some(s) => crate::text::str_eq(s.as_str(), t),
        None => false,
    }
}

fn format_info_from(f: &YtDlpFormat) -> (info: FormatInfo)
    ensures
        describes_format(info, *f),
{
    let media_type = if f.vcodec.is_none() || is_text(&f.vcodec, "none") {
        MediaType::Audio
    } else {
        MediaType::Video
    };
    FormatInfo {
        format_id: text_or_exec(&f.format_id, ""),
        ext: text_or_exec(&f.ext, ""),
        media_type,
        acodec: opt_owned(&f.acodec),
        vcodec: opt_owned(&f.vcodec),
        abr: f.abr,
        resolution: opt_owned(&f.resolution),
        filesize: f.filesize,
    }
}

fn subtitle_infos_from(subs: &Vec<YtDlpSubtitle>) -> (r: Vec<SubtitleInfo>)
    ensures
        subtitle_views(r@) == kept_subtitles(subs@),
{
    let mut r: Vec<SubtitleInfo> = Vec::new();
    let mut i: usize = 0;
    assert(subs@.subrange(0, 0) =~= Seq::<YtDlpSubtitle>::empty());
    assert(subtitle_views(r@) =~= Seq::<(Seq<char>, Option<Seq<char>>)>::empty());
    while i < subs.len()
        invariant
            i <= subs.len(),
            subtitle_views(r@) == kept_subtitles(subs@.subrange(0, i as int)),
        decreases subs.len() - i,
    {
        let t = &subs[i];
        assert(subs@.subrange(0, i + 1).drop_last() =~= subs@.subrange(0, i as int));
        assert(subs@.subrange(0, i + 1).last() == *t);
        match &t.ext {
            Some(ext) => {
                let ghost before = r@;
                r.push(SubtitleInfo { ext: owned(ext.as_str()), url: opt_owned(&t.url) });
                assert(subtitle_views(r@) =~= subtitle_views(before).push((ext@, opt_view(t.url))));
            },
            None => {},
        }
        i = i + 1;
    }
    assert(subs@.subrange(0, subs.len() as int) =~= subs@);
    r
}

/// The description of an item that yt-dlp printed as JSON: the missing
/// identifier is empty, the missing title `Unknown`, the missing platform
/// `YouTube`; its kind, formats and subtitle tracks are read as
/// [`describes_entry`] states.
pub fn media_info_from(e: &YtDlpEntry) -> (info: MediaInfo)
    ensures
        describes_entry(info, *e),
{
    let media_type = if is_text(&e.entry_type, "playlist") {
        MediaType::Playlist
    } else {
        match &e.vcodec {
            Some(v) => if crate::text::str_eq(v.as_str(), "none") { MediaType::Audio } else { MediaType::Video },
            None => MediaType::Audio,
        }
    };
    let mut formats: Vec<FormatInfo> = Vec::new();
    match &e.formats {
        Some(fs) => {
            let mut i: usize = 0;
            while i < fs.len()
                invariant
                    i <= fs.len(),
                    formats.len() == i,
                    forall|k: int| 0 <= k < i ==> describes_format(#[trigger] formats[k], fs[k]),
                decreases fs.len() - i,
            {
                formats.push(format_info_from(&fs[i]));
                i = i + 1;
            }
        },
        None => {},
    }
    let mut subtitles: Vec<(String, Vec<SubtitleInfo>)> = Vec::new();
    let mut j: usize = 0;
    while j < e.subtitles.len()
        invariant
            j <= e.subtitles.len(),
            subtitles.len() == j,
            forall|k: int| 0 <= k < j ==> {
                &&& (#[trigger] subtitles[k]).0@ == e.subtitles[k].0@
                &&& subtitle_views(subtitles[k].1@) == kept_subtitles(e.subtitles[k].1@)
            },
        decreases e.subtitles.len() - j,
    {
        let (lang, subs) = &e.subtitles[j];
        subtitles.push((owned(lang.as_str()), subtitle_infos_from(subs)));
        j = j + 1;
    }
    MediaInfo {
        id: text_or_exec(&e.id, ""),
        title: text_or_exec(&e.title, "Unknown"),
        platform: text_or_exec(&e.extractor_key, "YouTube"),
        media_type,
        duration: e.duration,
        uploader: opt_owned(&e.uploader),
        thumbnail: opt_owned(&e.thumbnail),
        formats,
        subtitles,
        playlist: None,
    }
}

/// The watch page of a YouTube video.
pub open spec fn watch_url(id: Seq<char>) -> Seq<char> {
    "https://youtube.com/watch?v="@ + id
}

/// The watch page of the YouTube video `id`.
pub fn watch_url_of(id: &str) -> (u: String)
    ensures
        u@ == watch_url(id@),
{
    concat2("https://youtube.com/watch?v=", id)
}

/// Whether `item` is the search hit that the item `e` of yt-dlp's JSON
/// stands for.
pub open spec fn describes_hit(item: SearchItem, e: YtDlpEntry) -> bool {
    &&& item.id@ == text_or(e.id, ""@)
    &&& item.title@ == text_or(e.title, "Unknown"@)
    &&& item.url@ == text_or(e.url, watch_url(text_or(e.id, ""@)))
    &&& item.platform@ == text_or(e.extractor_key, "YouTube"@)
    &&& opt_view(item.thumbnail) == opt_view(e.thumbnail)
    &&& item.duration == e.duration
    &&& opt_view(item.uploader) == opt_view(e.uploader)
}

/// The search hit that an item of yt-dlp's JSON stands for: its URL, or
/// the watch page of its identifier when it has none.
pub fn search_item_from(e: &YtDlpEntry) -> (item: SearchItem)
    ensures
        describes_hit(item, *e),
{
    let id = text_or_exec(&e.id, "");
    let url = match &e.url {
        Some(u) => owned(u.as_str()),
        None => watch_url_of(id.as_str()),
    };
    SearchItem {
        id,
        title: text_or_exec(&e.title, "Unknown"),
        platform: text_or_exec(&e.extractor_key, "YouTube"),
        url,
        thumbnail: opt_owned(&e.thumbnail),
        duration: e.duration,
        uploader: opt_owned(&e.uploader),
    }
}

/// The query that asks yt-dlp's YouTube search for `limit` hits.
pub open spec fn search_target(query: Seq<char>, limit: nat) -> Seq<char> {
    "ytsearch"@ + crate::text::decimal(limit) + ":"@ + query
}

/// The command line that asks for the JSON description of `url`.
pub open spec fn info_arguments(deno: Option<Seq<char>>, url: Seq<char>) -> Seq<Seq<char>> {
    js_runtime_arguments(deno) + seq!["--dump-json"@, "--no-download"@, url]
}

/// The command line that asks for the flat JSON listing of a playlist, or
/// of a search.
pub open spec fn listing_arguments(deno: Option<Seq<char>>, target: Seq<char>) -> Seq<Seq<char>> {
    js_runtime_arguments(deno) + seq!["--dump-json"@, "--flat-playlist"@, "--no-download"@, target]
}

fn runtime_then(deno: Option<&str>, rest: &[&str]) -> (args: Vec<String>)
    ensures
        strings_view(args@) == js_runtime_arguments(opt_str_view(deno)) + rest@.map_values(|a: &str| a@),
{
    let mut args = js_runtime_args(deno);
    let ghost start = strings_view(args@);
    let mut i: usize = 0;
    while i < rest.len()
        invariant
            i <= rest.len(),
            strings_view(args@) == start + rest@.subrange(0, i as int).map_values(|a: &str| a@),
        decreases rest.len() - i,
    {
        push_arg(&mut args, rest[i]);
        i = i + 1;
        assert(strings_view(args@) =~= start + rest@.subrange(0, i as int).map_values(|a: &str| a@));
    }
    assert(rest@.subrange(0, rest.len() as int) =~= rest@);
    args
}

// ---------------------------------------------------------------- laws

/// Every yt-dlp command line of a download starts with the arguments that
/// hand it the JavaScript runtime and ends with the URL.
#[verifier::spinoff_prover]
#[verifier::rlimit(30)]
pub proof fn law_command_frame(deno: Option<Seq<char>>, o: DownloadOptions, url: Seq<char>, retry: bool)
    ensures
        download_arguments(deno, o, url, retry).len() > js_runtime_arguments(deno).len(),
        download_arguments(deno, o, url, retry).subrange(0, js_runtime_arguments(deno).len() as int)
            == js_runtime_arguments(deno),
        download_arguments(deno, o, url, retry).last() == url,
{
    let js = js_runtime_arguments(deno);
    let lead = leading_arguments(deno, o, retry);
    let fs = format_selection(o.media_type == Some(MediaTypeHint::Audio), o.format, o.quality, o.ffmpeg_path is Some, retry);
    let tr = trailing_arguments(o, url);
    let rest = seq!["--newline"@, "--no-color"@]
        + only_if(retry, seq!["--extractor-args"@, "youtube:player_client=android"@])
        + flag_with("--ffmpeg-location"@, opt_view(o.ffmpeg_path))
        + flag_with("--cookies"@, opt_view(o.cookies_file))
        + flag_with("--cookies-from-browser"@, opt_view(o.cookies_from_browser));
    assert(lead =~= js + rest);
    let a = download_arguments(deno, o, url, retry);
    assert(a =~= js + (rest + fs + tr));
    assert(tr.last() == url);
    assert(a.last() == tr.last());
    assert(a.subrange(0, js.len() as int) =~= js);
}

/// The retry after an HTTP 403 asks for YouTube's Android player client:
/// right after the runtime arguments and `--newline --no-color` come
/// `--extractor-args youtube:player_client=android`.
#[verifier::spinoff_prover]
#[verifier::rlimit(30)]
pub proof fn law_retry_uses_android_client(deno: Option<Seq<char>>, o: DownloadOptions, url: Seq<char>)
    ensures
        ({
            let a = download_arguments(deno, o, url, true);
            let k = js_runtime_arguments(deno).len() as int;
            &&& a.len() > k + 3
            &&& a[k] == "--newline"@
            &&& a[k + 1] == "--no-color"@
            &&& a[k + 2] == "--extractor-args"@
            &&& a[k + 3] == "youtube:player_client=android"@
        }),
{
    let js = js_runtime_arguments(deno);
    let a = download_arguments(deno, o, url, true);
    let head = seq!["--newline"@, "--no-color"@, "--extractor-args"@, "youtube:player_client=android"@];
    let lead = leading_arguments(deno, o, true);
    let rest = flag_with("--ffmpeg-location"@, opt_view(o.ffmpeg_path))
        + flag_with("--cookies"@, opt_view(o.cookies_file))
        + flag_with("--cookies-from-browser"@, opt_view(o.cookies_from_browser));
    let fs = format_selection(o.media_type == Some(MediaTypeHint::Audio), o.format, o.quality, o.ffmpeg_path is Some, true);
    let tr = trailing_arguments(o, url);
    assert(lead =~= js + head + rest);
    assert(a =~= js + head + (rest + fs + tr));
    let k = js.len() as int;
    assert(a[k] == head[0]);
    assert(a[k + 1] == head[1]);
    assert(a[k + 2] == head[2]);
    assert(a[k + 3] == head[3]);
}

/// WAV, WebM and AVI cannot carry a thumbnail: a download in one of them
/// never embeds one, whatever was asked.
pub proof fn law_no_thumbnail_in_bare_containers(o: DownloadOptions)
    requires
        o.format == Some(Format::Audio(AudioFormat::Wav)) || o.format == Some(Format::Video(VideoFormat::Webm))
            || o.format == Some(Format::Video(VideoFormat::Avi)),
    ensures
        !embeds_thumbnail(o),
{
}

/// What is asked to be embedded is asked of yt-dlp: metadata, the
/// thumbnail where the format can carry one, and the subtitles each put
/// their flags on the command line.
#[verifier::spinoff_prover]
#[verifier::rlimit(30)]
pub proof fn law_embedding_flags(deno: Option<Seq<char>>, o: DownloadOptions, url: Seq<char>, retry: bool)
    ensures
        o.embed_metadata ==> download_arguments(deno, o, url, retry).contains("--embed-metadata"@),
        embeds_thumbnail(o) ==> download_arguments(deno, o, url, retry).contains("--embed-thumbnail"@),
        o.embed_subtitles ==> download_arguments(deno, o, url, retry).contains("--write-sub"@),
{
    let a = download_arguments(deno, o, url, retry);
    let lead = leading_arguments(deno, o, retry);
    let fs = format_selection(o.media_type == Some(MediaTypeHint::Audio), o.format, o.quality, o.ffmpeg_path is Some, retry);
    let fixed = seq!["--socket-timeout"@, "30"@, "--retries"@, "10"@]
        + seq!["-o"@, output_template(o.output_dir@)]
        + seq!["--windows-filenames"@]
        + seq!["--replace-in-metadata"@, "title"@, "\\.+$"@, ""@];
    let m = only_if(o.embed_metadata, seq!["--embed-metadata"@]);
    let t = only_if(embeds_thumbnail(o), seq!["--embed-thumbnail"@]);
    let st = only_if(o.embed_subtitles, seq!["--write-sub"@, "--write-auto-sub"@, "--sub-format"@, "vtt"@]);
    let p = lead + fs + fixed;
    assert(a =~= p + m + t + st + seq![url]);
    if o.embed_metadata {
        assert(a[p.len() as int] == "--embed-metadata"@);
    }
    if embeds_thumbnail(o) {
        assert(a[(p.len() + m.len()) as int] == "--embed-thumbnail"@);
    }
    if o.embed_subtitles {
        assert(a[(p.len() + m.len() + t.len()) as int] == "--write-sub"@);
    }
}

/// When yt-dlp reports neither a destination nor an earlier download, the
/// downloaded file is taken to be `unknown` in the output directory.
pub proof fn law_unreported_path_is_unknown(ls: Seq<Seq<char>>, fallback: Seq<char>)
    requires
        forall|i: int| 0 <= i < ls.len() ==> !contains(#[trigger] ls[i], "Destination:"@)
            && !starts_with(ls[i], "[download]"@),
    ensures
        path_from_lines(ls, fallback) == fallback,
    decreases ls.len(),
{
    if ls.len() > 0 {
        let rest = ls.subrange(1, ls.len() as int);
        assert forall|i: int| 0 <= i < rest.len() implies !contains(#[trigger] rest[i], "Destination:"@)
            && !starts_with(rest[i], "[download]"@) by {
            assert(rest[i] == ls[i + 1]);
        }
        assert(!contains(ls[0], "Destination:"@));
        law_unreported_path_is_unknown(rest, fallback);
    }
}

/// After an HTTP 403 the video selector drops its codec and container
/// filters: the retry asks for the same streams whatever the video format.
pub proof fn law_retry_selector_ignores_container(a: VideoFormat, b: VideoFormat, q: Option<Quality>, ffmpeg: bool)
    ensures
        format_selection(false, Some(Format::Video(a)), q, ffmpeg, true)[1]
            == format_selection(false, Some(Format::Video(b)), q, ffmpeg, true)[1],
        format_selection(false, Some(Format::Video(a)), q, ffmpeg, true)[1]
            == generic_video_selector(height_cap(q), ffmpeg),
{
}

impl YouTubeExtractor {
    pub closed spec fn spec_yt_dlp(&self) -> YtDlp {
        self.yt_dlp
    }

    /// An extractor running `yt_dlp`.
    pub fn new(yt_dlp: YtDlp) -> (e: YouTubeExtractor)
        ensures
            e.spec_yt_dlp() == yt_dlp,
    {
        YouTubeExtractor { yt_dlp }
    }

    /// The yt-dlp it runs.
    pub fn yt_dlp(&self) -> (y: &YtDlp)
        ensures
            *y == self.spec_yt_dlp(),
    {
        &self.yt_dlp
    }

    /// The command line that asks yt-dlp for the JSON description of `url`.
    pub fn info_command(&self, url: &str) -> (args: Vec<String>)
        ensures
            strings_view(args@) == info_arguments(self.spec_yt_dlp().spec_deno_path(), url@),
    {
        let args = runtime_then(self.yt_dlp.deno_path(), &["--dump-json", "--no-download", url]);
        assert(seq!["--dump-json", "--no-download", url].map_values(|a: &str| a@) =~= seq!["--dump-json"@, "--no-download"@, url@]);
        args
    }

    /// The command line that asks yt-dlp for the flat JSON listing of the
    /// playlist at `url`.
    pub fn playlist_info_command(&self, url: &str) -> (args: Vec<String>)
        ensures
            strings_view(args@) == listing_arguments(self.spec_yt_dlp().spec_deno_path(), url@),
    {
        let args = runtime_then(self.yt_dlp.deno_path(), &["--dump-json", "--flat-playlist", "--no-download", url]);
        assert(seq!["--dump-json", "--flat-playlist", "--no-download", url].map_values(|a: &str| a@)
            =~= seq!["--dump-json"@, "--flat-playlist"@, "--no-download"@, url@]);
        args
    }

    /// The command line that asks yt-dlp's YouTube search for `limit` hits
    /// of `query`.
    pub fn search_command(&self, query: &str, limit: usize) -> (args: Vec<String>)
        ensures
            strings_view(args@) == listing_arguments(
                self.spec_yt_dlp().spec_deno_path(),
                search_target(query@, limit as nat),
            ),
    {
        let count = crate::text::u64_to_string(limit as u64);
        let head = concat3("ytsearch", count.as_str(), ":");
        let target = concat2(head.as_str(), query);
        let t = target.as_str();
        let args = runtime_then(self.yt_dlp.deno_path(), &["--dump-json", "--flat-playlist", "--no-download", t]);
        assert(seq!["--dump-json", "--flat-playlist", "--no-download", t].map_values(|a: &str| a@)
            =~= seq!["--dump-json"@, "--flat-playlist"@, "--no-download"@, t@]);
        args
    }

    /// The command line of the first attempt to download `url`.
    pub fn download_command(&self, o: &DownloadOptions, url: &str) -> (args: Vec<String>)
        ensures
            strings_view(args@) == download_arguments(self.spec_yt_dlp().spec_deno_path(), *o, url@, false),
    {
        download_args(self.yt_dlp.deno_path(), o, url, false)
    }

    /// The command line of the retry after an HTTP 403, with the Android
    /// player client.
    pub fn retry_command(&self, o: &DownloadOptions, url: &str) -> (args: Vec<String>)
        ensures
            strings_view(args@) == download_arguments(self.spec_yt_dlp().spec_deno_path(), *o, url@, true),
    {
        download_args(self.yt_dlp.deno_path(), o, url, true)
    }
}

} // verus!
