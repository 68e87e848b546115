//! The vocabulary of a download: media types, audio and video formats and
//! qualities, their names, how they are read from user text, and the records
//! that describe media, formats and download results.

use vstd::prelude::*;
use crate::error::SourisError;
use crate::text::{all_ascii, ascii_lower, ascii_lower_char, lowercase_of, owned, str_eq, to_lowercase};

verus! {

#[derive(Debug, Clone, Copy, PartialEq, Eq, Structural)]
pub enum MediaType {
    Audio,
    Video,
    Playlist,
}

#[derive(Debug, Clone, Copy, PartialEq, Eq, Structural)]
pub enum AudioFormat {
    Mp3,
    Flac,
    Aac,
    Ogg,
    M4a,
    Wav,
}

#[derive(Debug, Clone, Copy, PartialEq, Eq, Structural)]
pub enum VideoFormat {
    Mp4,
    Mkv,
    Webm,
    Avi,
    Mov,
}

#[derive(Debug, Clone, Copy, PartialEq, Eq, Structural)]
pub enum Format {
    Audio(AudioFormat),
    Video(VideoFormat),
}

#[derive(Debug, Clone, Copy, PartialEq, Eq, Structural)]
pub enum AudioQuality {
    Kbps128,
    Kbps192,
    Kbps256,
    Kbps320,
    Lossless,
}

#[derive(Debug, Clone, Copy, PartialEq, Eq, Structural)]
pub enum VideoQuality {
    P360,
    P480,
    P720,
    P1080,
    P1440,
    P4K,
    P8K,
}

#[derive(Debug, Clone, Copy, PartialEq, Eq, Structural)]
pub enum Quality {
    Audio(AudioQuality),
    Video(VideoQuality),
}

// ---------------------------------------------------------------- names

impl AudioFormat {
    /// The display name of the format.
    pub open spec fn name(self) -> Seq<char> {
        match self {
            AudioFormat::Mp3 => "mp3"@,
            AudioFormat::Flac => "flac"@,
            AudioFormat::Aac => "aac"@,
            AudioFormat::Ogg => "ogg"@,
            AudioFormat::M4a => "m4a"@,
            AudioFormat::Wav => "wav"@,
        }
    }

    /// The format as a lower-cased name is read: each display name, and
    /// `vorbis` for Ogg.
    pub open spec fn from_lower(s: Seq<char>) -> Option<AudioFormat> {
        if s == "mp3"@ { Some(AudioFormat::Mp3) }
        else if s == "flac"@ { Some(AudioFormat::Flac) }
        else if s == "aac"@ { Some(AudioFormat::Aac) }
        else if s == "ogg"@ || s == "vorbis"@ { Some(AudioFormat::Ogg) }
        else if s == "m4a"@ { Some(AudioFormat::M4a) }
        else if s == "wav"@ { Some(AudioFormat::Wav) }
        else { None }
    }

    /// The name yt-dlp's `--audio-format` takes for the format.
    pub open spec fn yt_dlp_name(self) -> Seq<char> {
        match self {
            AudioFormat::Ogg => "vorbis"@,
            _ => self.name(),
        }
    }

    /// The display name of the format.
    pub fn to_string(&self) -> (s: String)
        ensures
            s@ == self.name(),
    {
        match self {
            AudioFormat::Mp3 => owned("mp3"),
            AudioFormat::Flac => owned("flac"),
            AudioFormat::Aac => owned("aac"),
            AudioFormat::Ogg => owned("ogg"),
            AudioFormat::M4a => owned("m4a"),
            AudioFormat::Wav => owned("wav"),
        }
    }

    /// The name yt-dlp's `--audio-format` takes for the format.
    pub fn yt_dlp_format(&self) -> (s: &'static str)
        ensures
            s@ == self.yt_dlp_name(),
    {
        match self {
            AudioFormat::Mp3 => "mp3",
            AudioFormat::Flac => "flac",
            AudioFormat::Aac => "aac",
            AudioFormat::Ogg => "vorbis",
            AudioFormat::M4a => "m4a",
            AudioFormat::Wav => "wav",
        }
    }

    /// Reads a format from an already lower-cased name.
    pub fn parse_lowercase(s: &str) -> (r: Option<AudioFormat>)
        ensures
            r == AudioFormat::from_lower(s@),
    {
        if str_eq(s, "mp3") { Some(AudioFormat::Mp3) }
        else if str_eq(s, "flac") { Some(AudioFormat::Flac) }
        else if str_eq(s, "aac") { Some(AudioFormat::Aac) }
        else if str_eq(s, "ogg") || str_eq(s, "vorbis") { Some(AudioFormat::Ogg) }
        else if str_eq(s, "m4a") { Some(AudioFormat::M4a) }
        else if str_eq(s, "wav") { Some(AudioFormat::Wav) }
        else { None }
    }

    /// Reads a format from user text, ignoring case; unknown names are an
    /// `UnsupportedFormat` error that carries the text.
    pub fn parse(s: &str) -> (r: Result<AudioFormat, SourisError>)
        ensures
            AudioFormat::from_lower(lowercase_of(s@)) matches Some(f) ==> r == Ok::<AudioFormat, SourisError>(f),
            all_ascii(s@) ==> (AudioFormat::from_lower(ascii_lower(s@)) matches Some(f) ==> r == Ok::<AudioFormat, SourisError>(f)),
            AudioFormat::from_lower(lowercase_of(s@)) is None ==> (r matches Err(SourisError::UnsupportedFormat { format }) && format@ == s@),
            all_ascii(s@) ==> (AudioFormat::from_lower(ascii_lower(s@)) is None ==> (r matches Err(SourisError::UnsupportedFormat { format }) && format@ == s@)),
    {
        let lower = to_lowercase(s);
        match AudioFormat::parse_lowercase(lower.as_str()) {
            Some(f) => Ok(f),
            None => Err(SourisError::UnsupportedFormat { format: owned(s) }),
        }
    }
}

impl VideoFormat {
    /// The display name of the format.
    pub open spec fn name(self) -> Seq<char> {
        match self {
            VideoFormat::Mp4 => "mp4"@,
            VideoFormat::Mkv => "mkv"@,
            VideoFormat::Webm => "webm"@,
            VideoFormat::Avi => "avi"@,
            VideoFormat::Mov => "mov"@,
        }
    }

    /// The format a lower-cased name reads as.
    pub open spec fn from_lower(s: Seq<char>) -> Option<VideoFormat> {
        if s == "mp4"@ { Some(VideoFormat::Mp4) }
        else if s == "mkv"@ { Some(VideoFormat::Mkv) }
        else if s == "webm"@ { Some(VideoFormat::Webm) }
        else if s == "avi"@ { Some(VideoFormat::Avi) }
        else if s == "mov"@ { Some(VideoFormat::Mov) }
        else { None }
    }

    /// The display name of the format.
    pub fn to_string(&self) -> (s: String)
        ensures
            s@ == self.name(),
    {
        match self {
            VideoFormat::Mp4 => owned("mp4"),
            VideoFormat::Mkv => owned("mkv"),
            VideoFormat::Webm => owned("webm"),
            VideoFormat::Avi => owned("avi"),
            VideoFormat::Mov => owned("mov"),
        }
    }

    /// Reads a format from an already lower-cased name.
    pub fn parse_lowercase(s: &str) -> (r: Option<VideoFormat>)
        ensures
            r == VideoFormat::from_lower(s@),
    {
        if str_eq(s, "mp4") { Some(VideoFormat::Mp4) }
        else if str_eq(s, "mkv") { Some(VideoFormat::Mkv) }
        else if str_eq(s, "webm") { Some(VideoFormat::Webm) }
        else if str_eq(s, "avi") { Some(VideoFormat::Avi) }
        else if str_eq(s, "mov") { Some(VideoFormat::Mov) }
        else { None }
    }

    /// Reads a format from user text, ignoring case; unknown names are an
    /// `UnsupportedFormat` error that carries the text.
    pub fn parse(s: &str) -> (r: Result<VideoFormat, SourisError>)
        ensures
            VideoFormat::from_lower(lowercase_of(s@)) matches Some(f) ==> r == Ok::<VideoFormat, SourisError>(f),
            all_ascii(s@) ==> (VideoFormat::from_lower(ascii_lower(s@)) matches Some(f) ==> r == Ok::<VideoFormat, SourisError>(f)),
            VideoFormat::from_lower(lowercase_of(s@)) is None ==> (r matches Err(SourisError::UnsupportedFormat { format }) && format@ == s@),
            all_ascii(s@) ==> (VideoFormat::from_lower(ascii_lower(s@)) is None ==> (r matches Err(SourisError::UnsupportedFormat { format }) && format@ == s@)),
    {
        let lower = to_lowercase(s);
        match VideoFormat::parse_lowercase(lower.as_str()) {
            Some(f) => Ok(f),
            None => Err(SourisError::UnsupportedFormat { format: owned(s) }),
        }
    }
}

impl Format {
    /// The display name of the format.
    pub open spec fn name(self) -> Seq<char> {
        match self {
            Format::Audio(a) => a.name(),
            Format::Video(v) => v.name(),
        }
    }

    /// The format a lower-cased name reads as: audio names first, then video names.
    pub open spec fn from_lower(s: Seq<char>) -> Option<Format> {
        match AudioFormat::from_lower(s) {
            Some(a) => Some(Format::Audio(a)),
            None => match VideoFormat::from_lower(s) {
                Some(v) => Some(Format::Video(v)),
                None => None,
            },
        }
    }

    /// Whether the container can carry an embedded thumbnail: WAV, WebM and
    /// AVI cannot.
    pub open spec fn spec_supports_thumbnail(self) -> bool {
        !(self == Format::Audio(AudioFormat::Wav) || self == Format::Video(VideoFormat::Webm)
            || self == Format::Video(VideoFormat::Avi))
    }

    /// The display name of the format.
    pub fn to_string(&self) -> (s: String)
        ensures
            s@ == self.name(),
    {
        match self {
            Format::Audio(a) => a.to_string(),
            Format::Video(v) => v.to_string(),
        }
    }

    /// Whether the container can carry an embedded thumbnail.
    pub fn supports_thumbnail(&self) -> (b: bool)
        ensures
            b == self.spec_supports_thumbnail(),
    {
        match self {
            Format::Audio(AudioFormat::Wav) => false,
            Format::Video(VideoFormat::Webm) => false,
            Format::Video(VideoFormat::Avi) => false,
            _ => true,
        }
    }

    /// Reads a format from an already lower-cased name.
    pub fn parse_lowercase(s: &str) -> (r: Option<Format>)
        ensures
            r == Format::from_lower(s@),
    {
        match AudioFormat::parse_lowercase(s) {
            Some(a) => Some(Format::Audio(a)),
            None => match VideoFormat::parse_lowercase(s) {
                Some(v) => Some(Format::Video(v)),
                None => None,
            },
        }
    }

    /// Reads a format from user text, ignoring case; unknown names are an
    /// `UnsupportedFormat` error that carries the text.
    pub fn parse(s: &str) -> (r: Result<Format, SourisError>)
        ensures
            Format::from_lower(lowercase_of(s@)) matches Some(f) ==> r == Ok::<Format, SourisError>(f),
            all_ascii(s@) ==> (Format::from_lower(ascii_lower(s@)) matches Some(f) ==> r == Ok::<Format, SourisError>(f)),
            Format::from_lower(lowercase_of(s@)) is None ==> (r matches Err(SourisError::UnsupportedFormat { format }) && format@ == s@),
            all_ascii(s@) ==> (Format::from_lower(ascii_lower(s@)) is None ==> (r matches Err(SourisError::UnsupportedFormat { format }) && format@ == s@)),
    {
        let lower = to_lowercase(s);
        match Format::parse_lowercase(lower.as_str()) {
            Some(f) => Ok(f),
            None => Err(SourisError::UnsupportedFormat { format: owned(s) }),
        }
    }
}

impl AudioQuality {
    /// The display name of the quality.
    pub open spec fn name(self) -> Seq<char> {
        match self {
            AudioQuality::Kbps128 => "128"@,
            AudioQuality::Kbps192 => "192"@,
            AudioQuality::Kbps256 => "256"@,
            AudioQuality::Kbps320 => "320"@,
            AudioQuality::Lossless => "lossless"@,
        }
    }

    /// The quality a lower-cased name reads as: each bitrate with or without
    /// a `kbps` suffix, and `lossless`.
    pub open spec fn from_lower(s: Seq<char>) -> Option<AudioQuality> {
        if s == "128"@ || s == "128kbps"@ { Some(AudioQuality::Kbps128) }
        else if s == "192"@ || s == "192kbps"@ { Some(AudioQuality::Kbps192) }
        else if s == "256"@ || s == "256kbps"@ { Some(AudioQuality::Kbps256) }
        else if s == "320"@ || s == "320kbps"@ { Some(AudioQuality::Kbps320) }
        else if s == "lossless"@ { Some(AudioQuality::Lossless) }
        else { None }
    }

    /// The bitrate ceiling handed to yt-dlp's format filter; none for lossless.
    pub open spec fn spec_abr(self) -> Option<Seq<char>> {
        match self {
            AudioQuality::Lossless => None,
            _ => Some(self.name()),
        }
    }

    /// The display name of the quality.
    pub fn to_string(&self) -> (s: String)
        ensures
            s@ == self.name(),
    {
        match self {
            AudioQuality::Kbps128 => owned("128"),
            AudioQuality::Kbps192 => owned("192"),
            AudioQuality::Kbps256 => owned("256"),
            AudioQuality::Kbps320 => owned("320"),
            AudioQuality::Lossless => owned("lossless"),
        }
    }

    /// The bitrate ceiling handed to yt-dlp's format filter; none for lossless.
    pub fn abr(&self) -> (r: Option<&'static str>)
        ensures
            r matches Some(s) ==> self.spec_abr() == Some(s@),
            r is None ==> self.spec_abr() is None,
    {
        match self {
            AudioQuality::Kbps128 => Some("128"),
            AudioQuality::Kbps192 => Some("192"),
            AudioQuality::Kbps256 => Some("256"),
            AudioQuality::Kbps320 => Some("320"),
            AudioQuality::Lossless => None,
        }
    }

    /// Reads a quality from an already lower-cased name.
    pub fn parse_lowercase(s: &str) -> (r: Option<AudioQuality>)
        ensures
            r == AudioQuality::from_lower(s@),
    {
        if str_eq(s, "128") || str_eq(s, "128kbps") { Some(AudioQuality::Kbps128) }
        else if str_eq(s, "192") || str_eq(s, "192kbps") { Some(AudioQuality::Kbps192) }
        else if str_eq(s, "256") || str_eq(s, "256kbps") { Some(AudioQuality::Kbps256) }
        else if str_eq(s, "320") || str_eq(s, "320kbps") { Some(AudioQuality::Kbps320) }
        else if str_eq(s, "lossless") { Some(AudioQuality::Lossless) }
        else { None }
    }

    /// Reads a quality from user text, ignoring case; unknown names are an
    /// `UnsupportedQuality` error that carries the text.
    pub fn parse(s: &str) -> (r: Result<AudioQuality, SourisError>)
        ensures
            AudioQuality::from_lower(lowercase_of(s@)) matches Some(q) ==> r == Ok::<AudioQuality, SourisError>(q),
            all_ascii(s@) ==> (AudioQuality::from_lower(ascii_lower(s@)) matches Some(q) ==> r == Ok::<AudioQuality, SourisError>(q)),
            AudioQuality::from_lower(lowercase_of(s@)) is None ==> (r matches Err(SourisError::UnsupportedQuality { quality }) && quality@ == s@),
            all_ascii(s@) ==> (AudioQuality::from_lower(ascii_lower(s@)) is None ==> (r matches Err(SourisError::UnsupportedQuality { quality }) && quality@ == s@)),
    {
        let lower = to_lowercase(s);
        match AudioQuality::parse_lowercase(lower.as_str()) {
            Some(q) => Ok(q),
            None => Err(SourisError::UnsupportedQuality { quality: owned(s) }),
        }
    }
}

impl VideoQuality {
    /// The display name of the quality.
    pub open spec fn name(self) -> Seq<char> {
        match self {
            VideoQuality::P360 => "360p"@,
            VideoQuality::P480 => "480p"@,
            VideoQuality::P720 => "720p"@,
            VideoQuality::P1080 => "1080p"@,
            VideoQuality::P1440 => "1440p"@,
            VideoQuality::P4K => "4K"@,
            VideoQuality::P8K => "8K"@,
        }
    }

    /// The quality a lower-cased name reads as: the heights with or without
    /// `p`, and the aliases `fhd`, `2k`, `4k` and `8k`.
    pub open spec fn from_lower(s: Seq<char>) -> Option<VideoQuality> {
        if s == "360p"@ || s == "360"@ { Some(VideoQuality::P360) }
        else if s == "480p"@ || s == "480"@ { Some(VideoQuality::P480) }
        else if s == "720p"@ || s == "720"@ { Some(VideoQuality::P720) }
        else if s == "1080p"@ || s == "1080"@ || s == "fhd"@ { Some(VideoQuality::P1080) }
        else if s == "1440p"@ || s == "1440"@ || s == "2k"@ { Some(VideoQuality::P1440) }
        else if s == "4k"@ || s == "2160p"@ || s == "2160"@ { Some(VideoQuality::P4K) }
        else if s == "8k"@ || s == "4320p"@ || s == "4320"@ { Some(VideoQuality::P8K) }
        else { None }
    }

    /// The frame height, in lines, handed to yt-dlp's format filter.
    pub open spec fn spec_height(self) -> Seq<char> {
        match self {
            VideoQuality::P360 => "360"@,
            VideoQuality::P480 => "480"@,
            VideoQuality::P720 => "720"@,
            VideoQuality::P1080 => "1080"@,
            VideoQuality::P1440 => "1440"@,
            VideoQuality::P4K => "2160"@,
            VideoQuality::P8K => "4320"@,
        }
    }

    /// The display name of the quality.
    pub fn to_string(&self) -> (s: String)
        ensures
            s@ == self.name(),
    {
        match self {
            VideoQuality::P360 => owned("360p"),
            VideoQuality::P480 => owned("480p"),
            VideoQuality::P720 => owned("720p"),
            VideoQuality::P1080 => owned("1080p"),
            VideoQuality::P1440 => owned("1440p"),
            VideoQuality::P4K => owned("4K"),
            VideoQuality::P8K => owned("8K"),
        }
    }

    /// The frame height, in lines, handed to yt-dlp's format filter.
    pub fn height(&self) -> (s: &'static str)
        ensures
            s@ == self.spec_height(),
    {
        match self {
            VideoQuality::P360 => "360",
            VideoQuality::P480 => "480",
            VideoQuality::P720 => "720",
            VideoQuality::P1080 => "1080",
            VideoQuality::P1440 => "1440",
            VideoQuality::P4K => "2160",
            VideoQuality::P8K => "4320",
        }
    }

    /// Reads a quality from an already lower-cased name.
    pub fn parse_lowercase(s: &str) -> (r: Option<VideoQuality>)
        ensures
            r == VideoQuality::from_lower(s@),
    {
        if str_eq(s, "360p") || str_eq(s, "360") { Some(VideoQuality::P360) }
        else if str_eq(s, "480p") || str_eq(s, "480") { Some(VideoQuality::P480) }
        else if str_eq(s, "720p") || str_eq(s, "720") { Some(VideoQuality::P720) }
        else if str_eq(s, "1080p") || str_eq(s, "1080") || str_eq(s, "fhd") { Some(VideoQuality::P1080) }
        else if str_eq(s, "1440p") || str_eq(s, "1440") || str_eq(s, "2k") { Some(VideoQuality::P1440) }
        else if str_eq(s, "4k") || str_eq(s, "2160p") || str_eq(s, "2160") { Some(VideoQuality::P4K) }
        else if str_eq(s, "8k") || str_eq(s, "4320p") || str_eq(s, "4320") { Some(VideoQuality::P8K) }
        else { None }
    }

    /// Reads a quality from user text, ignoring case; unknown names are an
    /// `UnsupportedQuality` error that carries the text.
    pub fn parse(s: &str) -> (r: Result<VideoQuality, SourisError>)
        ensures
            VideoQuality::from_lower(lowercase_of(s@)) matches Some(q) ==> r == Ok::<VideoQuality, SourisError>(q),
            all_ascii(s@) ==> (VideoQuality::from_lower(ascii_lower(s@)) matches Some(q) ==> r == Ok::<VideoQuality, SourisError>(q)),
            VideoQuality::from_lower(lowercase_of(s@)) is None ==> (r matches Err(SourisError::UnsupportedQuality { quality }) && quality@ == s@),
            all_ascii(s@) ==> (VideoQuality::from_lower(ascii_lower(s@)) is None ==> (r matches Err(SourisError::UnsupportedQuality { quality }) && quality@ == s@)),
    {
        let lower = to_lowercase(s);
        match VideoQuality::parse_lowercase(lower.as_str()) {
            Some(q) => Ok(q),
            None => Err(SourisError::UnsupportedQuality { quality: owned(s) }),
        }
    }
}

impl Quality {
    /// The display name of the quality.
    pub open spec fn name(self) -> Seq<char> {
        match self {
            Quality::Audio(a) => a.name(),
            Quality::Video(v) => v.name(),
        }
    }

    /// The quality a lower-cased name reads as: audio names first, then video names.
    pub open spec fn from_lower(s: Seq<char>) -> Option<Quality> {
        match AudioQuality::from_lower(s) {
            Some(a) => Some(Quality::Audio(a)),
            None => match VideoQuality::from_lower(s) {
                Some(v) => Some(Quality::Video(v)),
                None => None,
            },
        }
    }

    /// The display name of the quality.
    pub fn to_string(&self) -> (s: String)
        ensures
            s@ == self.name(),
    {
        match self {
            Quality::Audio(a) => a.to_string(),
            Quality::Video(v) => v.to_string(),
        }
    }

    /// Reads a quality from user text, ignoring case: an audio quality if
    /// the text names one, else a video quality; otherwise an
    /// `UnsupportedQuality` error that carries the text.
    pub fn parse(s: &str) -> (r: Result<Quality, SourisError>)
        ensures
            Quality::from_lower(lowercase_of(s@)) matches Some(q) ==> r == Ok::<Quality, SourisError>(q),
            all_ascii(s@) ==> (Quality::from_lower(ascii_lower(s@)) matches Some(q) ==> r == Ok::<Quality, SourisError>(q)),
            Quality::from_lower(lowercase_of(s@)) is None ==> (r matches Err(SourisError::UnsupportedQuality { quality }) && quality@ == s@),
            all_ascii(s@) ==> (Quality::from_lower(ascii_lower(s@)) is None ==> (r matches Err(SourisError::UnsupportedQuality { quality }) && quality@ == s@)),
    {
        match AudioQuality::parse(s) {
            Ok(a) => Ok(Quality::Audio(a)),
            Err(_) => match VideoQuality::parse(s) {
                Ok(v) => Ok(Quality::Video(v)),
                Err(_) => Err(SourisError::UnsupportedQuality { quality: owned(s) }),
            },
        }
    }
}

impl std::str::FromStr for AudioFormat {
    type Err = SourisError;

    fn from_str(s: &str) -> (r: Result<Self, Self::Err>)
        ensures
            AudioFormat::from_lower(lowercase_of(s@)) matches Some(f) ==> r == Ok::<AudioFormat, SourisError>(f),
            all_ascii(s@) ==> (AudioFormat::from_lower(ascii_lower(s@)) matches Some(f) ==> r == Ok::<AudioFormat, SourisError>(f)),
            AudioFormat::from_lower(lowercase_of(s@)) is None ==> (r matches Err(SourisError::UnsupportedFormat { format }) && format@ == s@),
            all_ascii(s@) ==> (AudioFormat::from_lower(ascii_lower(s@)) is None ==> (r matches Err(SourisError::UnsupportedFormat { format }) && format@ == s@)),
    {
        AudioFormat::parse(s)
    }
}

impl std::str::FromStr for VideoFormat {
    type Err = SourisError;

    fn from_str(s: &str) -> (r: Result<Self, Self::Err>)
        ensures
            VideoFormat::from_lower(lowercase_of(s@)) matches Some(f) ==> r == Ok::<VideoFormat, SourisError>(f),
            all_ascii(s@) ==> (VideoFormat::from_lower(ascii_lower(s@)) matches Some(f) ==> r == Ok::<VideoFormat, SourisError>(f)),
            VideoFormat::from_lower(lowercase_of(s@)) is None ==> (r matches Err(SourisError::UnsupportedFormat { format }) && format@ == s@),
            all_ascii(s@) ==> (VideoFormat::from_lower(ascii_lower(s@)) is None ==> (r matches Err(SourisError::UnsupportedFormat { format }) && format@ == s@)),
    {
        VideoFormat::parse(s)
    }
}

impl std::str::FromStr for Format {
    type Err = SourisError;

    fn from_str(s: &str) -> (r: Result<Self, Self::Err>)
        ensures
            Format::from_lower(lowercase_of(s@)) matches Some(f) ==> r == Ok::<Format, SourisError>(f),
            all_ascii(s@) ==> (Format::from_lower(ascii_lower(s@)) matches Some(f) ==> r == Ok::<Format, SourisError>(f)),
            Format::from_lower(lowercase_of(s@)) is None ==> (r matches Err(SourisError::UnsupportedFormat { format }) && format@ == s@),
            all_ascii(s@) ==> (Format::from_lower(ascii_lower(s@)) is None ==> (r matches Err(SourisError::UnsupportedFormat { format }) && format@ == s@)),
    {
        Format::parse(s)
    }
}

impl std::str::FromStr for AudioQuality {
    type Err = SourisError;

    fn from_str(s: &str) -> (r: Result<Self, Self::Err>)
        ensures
            AudioQuality::from_lower(lowercase_of(s@)) matches Some(q) ==> r == Ok::<AudioQuality, SourisError>(q),
            all_ascii(s@) ==> (AudioQuality::from_lower(ascii_lower(s@)) matches Some(q) ==> r == Ok::<AudioQuality, SourisError>(q)),
            AudioQuality::from_lower(lowercase_of(s@)) is None ==> (r matches Err(SourisError::UnsupportedQuality { quality }) && quality@ == s@),
            all_ascii(s@) ==> (AudioQuality::from_lower(ascii_lower(s@)) is None ==> (r matches Err(SourisError::UnsupportedQuality { quality }) && quality@ == s@)),
    {
        AudioQuality::parse(s)
    }
}

impl std::str::FromStr for VideoQuality {
    type Err = SourisError;

    fn from_str(s: &str) -> (r: Result<Self, Self::Err>)
        ensures
            VideoQuality::from_lower(lowercase_of(s@)) matches Some(q) ==> r == Ok::<VideoQuality, SourisError>(q),
            all_ascii(s@) ==> (VideoQuality::from_lower(ascii_lower(s@)) matches Some(q) ==> r == Ok::<VideoQuality, SourisError>(q)),
            VideoQuality::from_lower(lowercase_of(s@)) is None ==> (r matches Err(SourisError::UnsupportedQuality { quality }) && quality@ == s@),
            all_ascii(s@) ==> (VideoQuality::from_lower(ascii_lower(s@)) is None ==> (r matches Err(SourisError::UnsupportedQuality { quality }) && quality@ == s@)),
    {
        VideoQuality::parse(s)
    }
}

impl std::str::FromStr for Quality {
    type Err = SourisError;

    fn from_str(s: &str) -> (r: Result<Self, Self::Err>)
        ensures
            Quality::from_lower(lowercase_of(s@)) matches Some(q) ==> r == Ok::<Quality, SourisError>(q),
            all_ascii(s@) ==> (Quality::from_lower(ascii_lower(s@)) matches Some(q) ==> r == Ok::<Quality, SourisError>(q)),
            Quality::from_lower(lowercase_of(s@)) is None ==> (r matches Err(SourisError::UnsupportedQuality { quality }) && quality@ == s@),
            all_ascii(s@) ==> (Quality::from_lower(ascii_lower(s@)) is None ==> (r matches Err(SourisError::UnsupportedQuality { quality }) && quality@ == s@)),
    {
        Quality::parse(s)
    }
}


// ---------------------------------------------------------------- records

/// What yt-dlp reports about one downloadable item.
#[derive(Debug, Clone)]
pub struct MediaInfo {
    pub id: String,
    pub title: String,
    pub platform: String,
    pub media_type: MediaType,
    pub duration: Option<u64>,
    pub uploader: Option<String>,
    pub thumbnail: Option<String>,
    pub formats: Vec<FormatInfo>,
    /// The subtitle tracks by language, one entry per language.
    pub subtitles: Vec<(String, Vec<SubtitleInfo>)>,
    pub playlist: Option<PlaylistInfo>,
}

/// One format that a media item is offered in.
#[derive(Debug, Clone)]
pub struct FormatInfo {
    pub format_id: String,
    pub ext: String,
    pub media_type: MediaType,
    pub acodec: Option<String>,
    pub vcodec: Option<String>,
    pub abr: Option<u32>,
    pub resolution: Option<String>,
    pub filesize: Option<u64>,
}

/// One subtitle track of a media item.
#[derive(Debug, Clone)]
pub struct SubtitleInfo {
    pub ext: String,
    pub url: Option<String>,
}

/// The playlist a media item was resolved from.
#[derive(Debug, Clone)]
pub struct PlaylistInfo {
    pub id: String,
    pub title: String,
    pub count: usize,
}

/// The outcome of a download.
#[derive(Debug, Clone)]
pub struct DownloadResult {
    pub success: bool,
    pub path: Option<String>,
    pub size: Option<u64>,
    pub error: Option<String>,
    pub elapsed: Option<String>,
}

/// One search hit.
#[derive(Debug, Clone)]
pub struct SearchItem {
    pub id: String,
    pub title: String,
    pub platform: String,
    pub url: String,
    pub thumbnail: Option<String>,
    pub duration: Option<u64>,
    pub uploader: Option<String>,
}

// ---------------------------------------------------------------- laws

proof fn lemma_ascii_literal(s: Seq<char>)
    requires
        forall|i: int| 0 <= i < s.len() ==> ('a' <= #[trigger] s[i] <= 'z') || ('0' <= s[i] <= '9'),
    ensures
        all_ascii(s),
        ascii_lower(s) =~= s,
{
}

/// Reading back the display name of an audio format gives the format: the
/// name is ASCII and lower-case, and it reads as the format.
pub proof fn law_audio_format_name_round_trip(f: AudioFormat)
    ensures
        all_ascii(f.name()),
        ascii_lower(f.name()) == f.name(),
        AudioFormat::from_lower(f.name()) == Some(f),
{
    reveal_strlit("mp3");
    assert("mp3"@.len() == 3 && "mp3"@[0] == 'm' && "mp3"@[1] == 'p' && "mp3"@[2] == '3');
    reveal_strlit("flac");
    assert("flac"@.len() == 4 && "flac"@[0] == 'f' && "flac"@[1] == 'l' && "flac"@[2] == 'a' && "flac"@[3] == 'c');
    reveal_strlit("aac");
    assert("aac"@.len() == 3 && "aac"@[0] == 'a' && "aac"@[1] == 'a' && "aac"@[2] == 'c');
    reveal_strlit("ogg");
    assert("ogg"@.len() == 3 && "ogg"@[0] == 'o' && "ogg"@[1] == 'g' && "ogg"@[2] == 'g');
    reveal_strlit("vorbis");
    assert("vorbis"@.len() == 6 && "vorbis"@[0] == 'v' && "vorbis"@[1] == 'o' && "vorbis"@[2] == 'r' && "vorbis"@[3] == 'b' && "vorbis"@[4] == 'i' && "vorbis"@[5] == 's');
    reveal_strlit("m4a");
    assert("m4a"@.len() == 3 && "m4a"@[0] == 'm' && "m4a"@[1] == '4' && "m4a"@[2] == 'a');
    reveal_strlit("wav");
    assert("wav"@.len() == 3 && "wav"@[0] == 'w' && "wav"@[1] == 'a' && "wav"@[2] == 'v');
    lemma_ascii_literal(f.name());
}

/// Reading back the display name of a video format gives the format: the
/// name is ASCII and lower-case, and it reads as the format.
pub proof fn law_video_format_name_round_trip(f: VideoFormat)
    ensures
        all_ascii(f.name()),
        ascii_lower(f.name()) == f.name(),
        VideoFormat::from_lower(f.name()) == Some(f),
{
    reveal_strlit("mp4");
    assert("mp4"@.len() == 3 && "mp4"@[0] == 'm' && "mp4"@[1] == 'p' && "mp4"@[2] == '4');
    reveal_strlit("mkv");
    assert("mkv"@.len() == 3 && "mkv"@[0] == 'm' && "mkv"@[1] == 'k' && "mkv"@[2] == 'v');
    reveal_strlit("webm");
    assert("webm"@.len() == 4 && "webm"@[0] == 'w' && "webm"@[1] == 'e' && "webm"@[2] == 'b' && "webm"@[3] == 'm');
    reveal_strlit("avi");
    assert("avi"@.len() == 3 && "avi"@[0] == 'a' && "avi"@[1] == 'v' && "avi"@[2] == 'i');
    reveal_strlit("mov");
    assert("mov"@.len() == 3 && "mov"@[0] == 'm' && "mov"@[1] == 'o' && "mov"@[2] == 'v');
    lemma_ascii_literal(f.name());
}

/// Audio and video format names are disjoint, so a format name reads as at
/// most one kind of format.
pub proof fn law_format_names_disjoint(s: Seq<char>)
    ensures
        !(AudioFormat::from_lower(s) is Some && VideoFormat::from_lower(s) is Some),
{
    reveal_strlit("mp3");
    assert("mp3"@.len() == 3 && "mp3"@[0] == 'm' && "mp3"@[1] == 'p' && "mp3"@[2] == '3');
    reveal_strlit("flac");
    assert("flac"@.len() == 4 && "flac"@[0] == 'f' && "flac"@[1] == 'l' && "flac"@[2] == 'a' && "flac"@[3] == 'c');
    reveal_strlit("aac");
    assert("aac"@.len() == 3 && "aac"@[0] == 'a' && "aac"@[1] == 'a' && "aac"@[2] == 'c');
    reveal_strlit("ogg");
    assert("ogg"@.len() == 3 && "ogg"@[0] == 'o' && "ogg"@[1] == 'g' && "ogg"@[2] == 'g');
    reveal_strlit("vorbis");
    assert("vorbis"@.len() == 6 && "vorbis"@[0] == 'v' && "vorbis"@[1] == 'o' && "vorbis"@[2] == 'r' && "vorbis"@[3] == 'b' && "vorbis"@[4] == 'i' && "vorbis"@[5] == 's');
    reveal_strlit("m4a");
    assert("m4a"@.len() == 3 && "m4a"@[0] == 'm' && "m4a"@[1] == '4' && "m4a"@[2] == 'a');
    reveal_strlit("wav");
    assert("wav"@.len() == 3 && "wav"@[0] == 'w' && "wav"@[1] == 'a' && "wav"@[2] == 'v');
    reveal_strlit("mp4");
    assert("mp4"@.len() == 3 && "mp4"@[0] == 'm' && "mp4"@[1] == 'p' && "mp4"@[2] == '4');
    reveal_strlit("mkv");
    assert("mkv"@.len() == 3 && "mkv"@[0] == 'm' && "mkv"@[1] == 'k' && "mkv"@[2] == 'v');
    reveal_strlit("webm");
    assert("webm"@.len() == 4 && "webm"@[0] == 'w' && "webm"@[1] == 'e' && "webm"@[2] == 'b' && "webm"@[3] == 'm');
    reveal_strlit("avi");
    assert("avi"@.len() == 3 && "avi"@[0] == 'a' && "avi"@[1] == 'v' && "avi"@[2] == 'i');
    reveal_strlit("mov");
    assert("mov"@.len() == 3 && "mov"@[0] == 'm' && "mov"@[1] == 'o' && "mov"@[2] == 'v');
}

/// Reading back the display name of a format gives the format.
pub proof fn law_format_name_round_trip(f: Format)
    ensures
        all_ascii(f.name()),
        ascii_lower(f.name()) == f.name(),
        Format::from_lower(f.name()) == Some(f),
{
    match f {
        Format::Audio(a) => {
            law_audio_format_name_round_trip(a);
        },
        Format::Video(v) => {
            law_video_format_name_round_trip(v);
            law_format_names_disjoint(v.name());
        },
    }
}

/// Reading back the display name of an audio quality gives the quality.
pub proof fn law_audio_quality_name_round_trip(q: AudioQuality)
    ensures
        all_ascii(q.name()),
        ascii_lower(q.name()) == q.name(),
        AudioQuality::from_lower(q.name()) == Some(q),
{
    reveal_strlit("128");
    assert("128"@.len() == 3 && "128"@[0] == '1' && "128"@[1] == '2' && "128"@[2] == '8');
    reveal_strlit("128kbps");
    assert("128kbps"@.len() == 7 && "128kbps"@[0] == '1' && "128kbps"@[1] == '2' && "128kbps"@[2] == '8' && "128kbps"@[3] == 'k' && "128kbps"@[4] == 'b' && "128kbps"@[5] == 'p' && "128kbps"@[6] == 's');
    reveal_strlit("192");
    assert("192"@.len() == 3 && "192"@[0] == '1' && "192"@[1] == '9' && "192"@[2] == '2');
    reveal_strlit("192kbps");
    assert("192kbps"@.len() == 7 && "192kbps"@[0] == '1' && "192kbps"@[1] == '9' && "192kbps"@[2] == '2' && "192kbps"@[3] == 'k' && "192kbps"@[4] == 'b' && "192kbps"@[5] == 'p' && "192kbps"@[6] == 's');
    reveal_strlit("256");
    assert("256"@.len() == 3 && "256"@[0] == '2' && "256"@[1] == '5' && "256"@[2] == '6');
    reveal_strlit("256kbps");
    assert("256kbps"@.len() == 7 && "256kbps"@[0] == '2' && "256kbps"@[1] == '5' && "256kbps"@[2] == '6' && "256kbps"@[3] == 'k' && "256kbps"@[4] == 'b' && "256kbps"@[5] == 'p' && "256kbps"@[6] == 's');
    reveal_strlit("320");
    assert("320"@.len() == 3 && "320"@[0] == '3' && "320"@[1] == '2' && "320"@[2] == '0');
    reveal_strlit("320kbps");
    assert("320kbps"@.len() == 7 && "320kbps"@[0] == '3' && "320kbps"@[1] == '2' && "320kbps"@[2] == '0' && "320kbps"@[3] == 'k' && "320kbps"@[4] == 'b' && "320kbps"@[5] == 'p' && "320kbps"@[6] == 's');
    reveal_strlit("lossless");
    assert("lossless"@.len() == 8 && "lossless"@[0] == 'l' && "lossless"@[1] == 'o' && "lossless"@[2] == 's' && "lossless"@[3] == 's' && "lossless"@[4] == 'l' && "lossless"@[5] == 'e' && "lossless"@[6] == 's' && "lossless"@[7] == 's');
    lemma_ascii_literal(q.name());
}

/// Reading back the lower-cased display name of a video quality gives the
/// quality ("4K" reads as "4k").
pub proof fn law_video_quality_name_round_trip(q: VideoQuality)
    ensures
        all_ascii(q.name()),
        VideoQuality::from_lower(ascii_lower(q.name())) == Some(q),
{
    reveal_strlit("360p");
    assert("360p"@.len() == 4 && "360p"@[0] == '3' && "360p"@[1] == '6' && "360p"@[2] == '0' && "360p"@[3] == 'p');
    reveal_strlit("360");
    assert("360"@.len() == 3 && "360"@[0] == '3' && "360"@[1] == '6' && "360"@[2] == '0');
    reveal_strlit("480p");
    assert("480p"@.len() == 4 && "480p"@[0] == '4' && "480p"@[1] == '8' && "480p"@[2] == '0' && "480p"@[3] == 'p');
    reveal_strlit("480");
    assert("480"@.len() == 3 && "480"@[0] == '4' && "480"@[1] == '8' && "480"@[2] == '0');
    reveal_strlit("720p");
    assert("720p"@.len() == 4 && "720p"@[0] == '7' && "720p"@[1] == '2' && "720p"@[2] == '0' && "720p"@[3] == 'p');
    reveal_strlit("720");
    assert("720"@.len() == 3 && "720"@[0] == '7' && "720"@[1] == '2' && "720"@[2] == '0');
    reveal_strlit("1080p");
    assert("1080p"@.len() == 5 && "1080p"@[0] == '1' && "1080p"@[1] == '0' && "1080p"@[2] == '8' && "1080p"@[3] == '0' && "1080p"@[4] == 'p');
    reveal_strlit("1080");
    assert("1080"@.len() == 4 && "1080"@[0] == '1' && "1080"@[1] == '0' && "1080"@[2] == '8' && "1080"@[3] == '0');
    reveal_strlit("fhd");
    assert("fhd"@.len() == 3 && "fhd"@[0] == 'f' && "fhd"@[1] == 'h' && "fhd"@[2] == 'd');
    reveal_strlit("1440p");
    assert("1440p"@.len() == 5 && "1440p"@[0] == '1' && "1440p"@[1] == '4' && "1440p"@[2] == '4' && "1440p"@[3] == '0' && "1440p"@[4] == 'p');
    reveal_strlit("1440");
    assert("1440"@.len() == 4 && "1440"@[0] == '1' && "1440"@[1] == '4' && "1440"@[2] == '4' && "1440"@[3] == '0');
    reveal_strlit("2k");
    assert("2k"@.len() == 2 && "2k"@[0] == '2' && "2k"@[1] == 'k');
    reveal_strlit("4k");
    assert("4k"@.len() == 2 && "4k"@[0] == '4' && "4k"@[1] == 'k');
    reveal_strlit("4K");
    assert("4K"@.len() == 2 && "4K"@[0] == '4' && "4K"@[1] == 'K');
    reveal_strlit("2160p");
    assert("2160p"@.len() == 5 && "2160p"@[0] == '2' && "2160p"@[1] == '1' && "2160p"@[2] == '6' && "2160p"@[3] == '0' && "2160p"@[4] == 'p');
    reveal_strlit("2160");
    assert("2160"@.len() == 4 && "2160"@[0] == '2' && "2160"@[1] == '1' && "2160"@[2] == '6' && "2160"@[3] == '0');
    reveal_strlit("8k");
    assert("8k"@.len() == 2 && "8k"@[0] == '8' && "8k"@[1] == 'k');
    reveal_strlit("8K");
    assert("8K"@.len() == 2 && "8K"@[0] == '8' && "8K"@[1] == 'K');
    reveal_strlit("4320p");
    assert("4320p"@.len() == 5 && "4320p"@[0] == '4' && "4320p"@[1] == '3' && "4320p"@[2] == '2' && "4320p"@[3] == '0' && "4320p"@[4] == 'p');
    reveal_strlit("4320");
    assert("4320"@.len() == 4 && "4320"@[0] == '4' && "4320"@[1] == '3' && "4320"@[2] == '2' && "4320"@[3] == '0');
    match q {
        VideoQuality::P4K => {
            assert(ascii_lower_char('K') == 'k');
            assert(ascii_lower("4K"@) =~= "4k"@);
        },
        VideoQuality::P8K => {
            assert(ascii_lower_char('K') == 'k');
            assert(ascii_lower("8K"@) =~= "8k"@);
        },
        _ => {
            lemma_ascii_literal(q.name());
        },
    }
}

/// An audio quality name never reads as a video quality, so reading a
/// quality is unambiguous.
pub proof fn law_quality_names_disjoint(s: Seq<char>)
    ensures
        !(AudioQuality::from_lower(s) is Some && VideoQuality::from_lower(s) is Some),
{
    reveal_strlit("128");
    assert("128"@.len() == 3 && "128"@[0] == '1' && "128"@[1] == '2' && "128"@[2] == '8');
    reveal_strlit("128kbps");
    assert("128kbps"@.len() == 7 && "128kbps"@[0] == '1' && "128kbps"@[1] == '2' && "128kbps"@[2] == '8' && "128kbps"@[3] == 'k' && "128kbps"@[4] == 'b' && "128kbps"@[5] == 'p' && "128kbps"@[6] == 's');
    reveal_strlit("192");
    assert("192"@.len() == 3 && "192"@[0] == '1' && "192"@[1] == '9' && "192"@[2] == '2');
    reveal_strlit("192kbps");
    assert("192kbps"@.len() == 7 && "192kbps"@[0] == '1' && "192kbps"@[1] == '9' && "192kbps"@[2] == '2' && "192kbps"@[3] == 'k' && "192kbps"@[4] == 'b' && "192kbps"@[5] == 'p' && "192kbps"@[6] == 's');
    reveal_strlit("256");
    assert("256"@.len() == 3 && "256"@[0] == '2' && "256"@[1] == '5' && "256"@[2] == '6');
    reveal_strlit("256kbps");
    assert("256kbps"@.len() == 7 && "256kbps"@[0] == '2' && "256kbps"@[1] == '5' && "256kbps"@[2] == '6' && "256kbps"@[3] == 'k' && "256kbps"@[4] == 'b' && "256kbps"@[5] == 'p' && "256kbps"@[6] == 's');
    reveal_strlit("320");
    assert("320"@.len() == 3 && "320"@[0] == '3' && "320"@[1] == '2' && "320"@[2] == '0');
    reveal_strlit("320kbps");
    assert("320kbps"@.len() == 7 && "320kbps"@[0] == '3' && "320kbps"@[1] == '2' && "320kbps"@[2] == '0' && "320kbps"@[3] == 'k' && "320kbps"@[4] == 'b' && "320kbps"@[5] == 'p' && "320kbps"@[6] == 's');
    reveal_strlit("lossless");
    assert("lossless"@.len() == 8 && "lossless"@[0] == 'l' && "lossless"@[1] == 'o' && "lossless"@[2] == 's' && "lossless"@[3] == 's' && "lossless"@[4] == 'l' && "lossless"@[5] == 'e' && "lossless"@[6] == 's' && "lossless"@[7] == 's');
    reveal_strlit("360p");
    assert("360p"@.len() == 4 && "360p"@[0] == '3' && "360p"@[1] == '6' && "360p"@[2] == '0' && "360p"@[3] == 'p');
    reveal_strlit("360");
    assert("360"@.len() == 3 && "360"@[0] == '3' && "360"@[1] == '6' && "360"@[2] == '0');
    reveal_strlit("480p");
    assert("480p"@.len() == 4 && "480p"@[0] == '4' && "480p"@[1] == '8' && "480p"@[2] == '0' && "480p"@[3] == 'p');
    reveal_strlit("480");
    assert("480"@.len() == 3 && "480"@[0] == '4' && "480"@[1] == '8' && "480"@[2] == '0');
    reveal_strlit("720p");
    assert("720p"@.len() == 4 && "720p"@[0] == '7' && "720p"@[1] == '2' && "720p"@[2] == '0' && "720p"@[3] == 'p');
    reveal_strlit("720");
    assert("720"@.len() == 3 && "720"@[0] == '7' && "720"@[1] == '2' && "720"@[2] == '0');
    reveal_strlit("1080p");
    assert("1080p"@.len() == 5 && "1080p"@[0] == '1' && "1080p"@[1] == '0' && "1080p"@[2] == '8' && "1080p"@[3] == '0' && "1080p"@[4] == 'p');
    reveal_strlit("1080");
    assert("1080"@.len() == 4 && "1080"@[0] == '1' && "1080"@[1] == '0' && "1080"@[2] == '8' && "1080"@[3] == '0');
    reveal_strlit("fhd");
    assert("fhd"@.len() == 3 && "fhd"@[0] == 'f' && "fhd"@[1] == 'h' && "fhd"@[2] == 'd');
    reveal_strlit("1440p");
    assert("1440p"@.len() == 5 && "1440p"@[0] == '1' && "1440p"@[1] == '4' && "1440p"@[2] == '4' && "1440p"@[3] == '0' && "1440p"@[4] == 'p');
    reveal_strlit("1440");
    assert("1440"@.len() == 4 && "1440"@[0] == '1' && "1440"@[1] == '4' && "1440"@[2] == '4' && "1440"@[3] == '0');
    reveal_strlit("2k");
    assert("2k"@.len() == 2 && "2k"@[0] == '2' && "2k"@[1] == 'k');
    reveal_strlit("4k");
    assert("4k"@.len() == 2 && "4k"@[0] == '4' && "4k"@[1] == 'k');
    reveal_strlit("2160p");
    assert("2160p"@.len() == 5 && "2160p"@[0] == '2' && "2160p"@[1] == '1' && "2160p"@[2] == '6' && "2160p"@[3] == '0' && "2160p"@[4] == 'p');
    reveal_strlit("2160");
    assert("2160"@.len() == 4 && "2160"@[0] == '2' && "2160"@[1] == '1' && "2160"@[2] == '6' && "2160"@[3] == '0');
    reveal_strlit("8k");
    assert("8k"@.len() == 2 && "8k"@[0] == '8' && "8k"@[1] == 'k');
    reveal_strlit("4320p");
    assert("4320p"@.len() == 5 && "4320p"@[0] == '4' && "4320p"@[1] == '3' && "4320p"@[2] == '2' && "4320p"@[3] == '0' && "4320p"@[4] == 'p');
    reveal_strlit("4320");
    assert("4320"@.len() == 4 && "4320"@[0] == '4' && "4320"@[1] == '3' && "4320"@[2] == '2' && "4320"@[3] == '0');
}

/// Reading back the lower-cased display name of a quality gives the quality.
pub proof fn law_quality_name_round_trip(q: Quality)
    ensures
        all_ascii(q.name()),
        Quality::from_lower(ascii_lower(q.name())) == Some(q),
{
    match q {
        Quality::Audio(a) => {
            law_audio_quality_name_round_trip(a);
        },
        Quality::Video(v) => {
            law_video_quality_name_round_trip(v);
            law_quality_names_disjoint(ascii_lower(v.name()));
        },
    }
}


/// The frame height handed to yt-dlp for a video quality reads back as
/// that quality, with or without a trailing `p` ("1080" and "1080p" both
/// read as 1080p), and a quality named by its height is named by exactly
/// that height followed by `p`.
pub proof fn law_video_height_reads_back(q: VideoQuality)
    ensures
        VideoQuality::from_lower(q.spec_height()) == Some(q),
        VideoQuality::from_lower(q.spec_height() + "p"@) == Some(q),
        q != VideoQuality::P4K && q != VideoQuality::P8K ==> q.name() == q.spec_height() + "p"@,
{
    reveal_strlit("p");
    assert("p"@.len() == 1 && "p"@[0] == 'p');
    reveal_strlit("360p");
    assert("360p"@.len() == 4 && "360p"@[0] == '3' && "360p"@[1] == '6' && "360p"@[2] == '0' && "360p"@[3] == 'p');
    reveal_strlit("360");
    assert("360"@.len() == 3 && "360"@[0] == '3' && "360"@[1] == '6' && "360"@[2] == '0');
    reveal_strlit("480p");
    assert("480p"@.len() == 4 && "480p"@[0] == '4' && "480p"@[1] == '8' && "480p"@[2] == '0' && "480p"@[3] == 'p');
    reveal_strlit("480");
    assert("480"@.len() == 3 && "480"@[0] == '4' && "480"@[1] == '8' && "480"@[2] == '0');
    reveal_strlit("720p");
    assert("720p"@.len() == 4 && "720p"@[0] == '7' && "720p"@[1] == '2' && "720p"@[2] == '0' && "720p"@[3] == 'p');
    reveal_strlit("720");
    assert("720"@.len() == 3 && "720"@[0] == '7' && "720"@[1] == '2' && "720"@[2] == '0');
    reveal_strlit("1080p");
    assert("1080p"@.len() == 5 && "1080p"@[0] == '1' && "1080p"@[1] == '0' && "1080p"@[2] == '8' && "1080p"@[3] == '0' && "1080p"@[4] == 'p');
    reveal_strlit("1080");
    assert("1080"@.len() == 4 && "1080"@[0] == '1' && "1080"@[1] == '0' && "1080"@[2] == '8' && "1080"@[3] == '0');
    reveal_strlit("fhd");
    assert("fhd"@.len() == 3 && "fhd"@[0] == 'f' && "fhd"@[1] == 'h' && "fhd"@[2] == 'd');
    reveal_strlit("1440p");
    assert("1440p"@.len() == 5 && "1440p"@[0] == '1' && "1440p"@[1] == '4' && "1440p"@[2] == '4' && "1440p"@[3] == '0' && "1440p"@[4] == 'p');
    reveal_strlit("1440");
    assert("1440"@.len() == 4 && "1440"@[0] == '1' && "1440"@[1] == '4' && "1440"@[2] == '4' && "1440"@[3] == '0');
    reveal_strlit("2k");
    assert("2k"@.len() == 2 && "2k"@[0] == '2' && "2k"@[1] == 'k');
    reveal_strlit("4k");
    assert("4k"@.len() == 2 && "4k"@[0] == '4' && "4k"@[1] == 'k');
    reveal_strlit("4K");
    assert("4K"@.len() == 2 && "4K"@[0] == '4' && "4K"@[1] == 'K');
    reveal_strlit("2160p");
    assert("2160p"@.len() == 5 && "2160p"@[0] == '2' && "2160p"@[1] == '1' && "2160p"@[2] == '6' && "2160p"@[3] == '0' && "2160p"@[4] == 'p');
    reveal_strlit("2160");
    assert("2160"@.len() == 4 && "2160"@[0] == '2' && "2160"@[1] == '1' && "2160"@[2] == '6' && "2160"@[3] == '0');
    reveal_strlit("8k");
    assert("8k"@.len() == 2 && "8k"@[0] == '8' && "8k"@[1] == 'k');
    reveal_strlit("8K");
    assert("8K"@.len() == 2 && "8K"@[0] == '8' && "8K"@[1] == 'K');
    reveal_strlit("4320p");
    assert("4320p"@.len() == 5 && "4320p"@[0] == '4' && "4320p"@[1] == '3' && "4320p"@[2] == '2' && "4320p"@[3] == '0' && "4320p"@[4] == 'p');
    reveal_strlit("4320");
    assert("4320"@.len() == 4 && "4320"@[0] == '4' && "4320"@[1] == '3' && "4320"@[2] == '2' && "4320"@[3] == '0');
    assert("360"@ + "p"@ =~= "360p"@);
    assert("480"@ + "p"@ =~= "480p"@);
    assert("720"@ + "p"@ =~= "720p"@);
    assert("1080"@ + "p"@ =~= "1080p"@);
    assert("1440"@ + "p"@ =~= "1440p"@);
    assert("2160"@ + "p"@ =~= "2160p"@);
    assert("4320"@ + "p"@ =~= "4320p"@);
}


/// Read as a quality of either kind, the frame height of a video quality
/// (with or without `p`) is that video quality.
pub proof fn law_quality_reads_video_height(q: VideoQuality)
    ensures
        Quality::from_lower(q.spec_height()) == Some(Quality::Video(q)),
        Quality::from_lower(q.spec_height() + "p"@) == Some(Quality::Video(q)),
{
    law_video_height_reads_back(q);
    law_quality_names_disjoint(q.spec_height());
    law_quality_names_disjoint(q.spec_height() + "p"@);
}

} // verus!
