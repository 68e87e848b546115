//! The downloader's settings: the request builder that describes one
//! download, the builder of the downloader's defaults, and how a request
//! and the defaults combine into what is asked of yt-dlp.

use vstd::prelude::*;
use crate::deps::{status_entry, DepManager, DepStatus};
use crate::deps::yt_dlp::{opt_str_view, opt_to_owned, opt_view};
use crate::error::SourisError;
use crate::extractors::resolver::Resolver;
use crate::extractors::youtube::DownloadOptions;
use crate::media::request::MediaTypeHint;
use crate::media::types::{Format, Quality, VideoFormat, VideoQuality};
use crate::text::{lowercase_of, owned};

verus! {

/// One download: the URL, and what the caller asked of it (`None` leaves
/// the downloader's default).
pub struct DownloadRequestBuilder {
    pub url: String,
    pub media_type: Option<MediaTypeHint>,
    pub format: Option<Format>,
    pub quality: Option<Quality>,
    pub output: Option<String>,
    pub parallel: Option<usize>,
    pub embed_metadata: Option<bool>,
    pub embed_thumbnail: Option<bool>,
    pub embed_subtitles: Option<bool>,
    pub timeout: Option<u64>,
    pub max_retries: Option<u32>,
    pub auto_update: Option<bool>,
}

impl DownloadRequestBuilder {
    /// A request for `url` that leaves every setting to the defaults.
    pub fn new(url: &str) -> (r: DownloadRequestBuilder)
        ensures
            r.url@ == url@,
            r.media_type is None,
            r.format is None,
            r.quality is None,
            r.output is None,
            r.parallel is None,
            r.embed_metadata is None,
            r.embed_thumbnail is None,
            r.embed_subtitles is None,
            r.timeout is None,
            r.max_retries is None,
            r.auto_update is None,
    {
        DownloadRequestBuilder {
            url: owned(url),
            media_type: None,
            format: None,
            quality: None,
            output: None,
            parallel: None,
            embed_metadata: None,
            embed_thumbnail: None,
            embed_subtitles: None,
            timeout: None,
            max_retries: None,
            auto_update: None,
        }
    }

    /// The request, expecting `hint`.
    pub fn media_type(self, hint: MediaTypeHint) -> (r: DownloadRequestBuilder)
        ensures
            r == (DownloadRequestBuilder { media_type: Some(hint), ..self }),
    {
        DownloadRequestBuilder { media_type: Some(hint), ..self }
    }

    /// The request, in `format`.
    pub fn format(self, format: Format) -> (r: DownloadRequestBuilder)
        ensures
            r == (DownloadRequestBuilder { format: Some(format), ..self }),
    {
        DownloadRequestBuilder { format: Some(format), ..self }
    }

    /// The request, in the format named by `s` (case is ignored); an
    /// `UnsupportedFormat` error for an unknown name.
    pub fn format_str(self, s: &str) -> (r: Result<DownloadRequestBuilder, SourisError>)
        ensures
            Format::from_lower(lowercase_of(s@)) matches Some(f) ==> (r matches Ok(b) && b == (DownloadRequestBuilder {
                format: Some(f),
                ..self
            })),
            Format::from_lower(lowercase_of(s@)) is None ==> (r matches Err(SourisError::UnsupportedFormat { format })
                && format@ == s@),
    {
        match Format::parse(s) {
            Ok(f) => Ok(DownloadRequestBuilder { format: Some(f), ..self }),
            Err(e) => Err(e),
        }
    }

    /// The request, at `quality`.
    pub fn quality(self, quality: Quality) -> (r: DownloadRequestBuilder)
        ensures
            r == (DownloadRequestBuilder { quality: Some(quality), ..self }),
    {
        DownloadRequestBuilder { quality: Some(quality), ..self }
    }

    /// The request, at the quality named by `s` (case is ignored); an
    /// `UnsupportedQuality` error for an unknown name.
    pub fn quality_str(self, s: &str) -> (r: Result<DownloadRequestBuilder, SourisError>)
        ensures
            Quality::from_lower(lowercase_of(s@)) matches Some(q) ==> (r matches Ok(b) && b == (DownloadRequestBuilder {
                quality: Some(q),
                ..self
            })),
            Quality::from_lower(lowercase_of(s@)) is None ==> (r matches Err(SourisError::UnsupportedQuality { quality })
                && quality@ == s@),
    {
        match Quality::parse(s) {
            Ok(q) => Ok(DownloadRequestBuilder { quality: Some(q), ..self }),
            Err(e) => Err(e),
        }
    }

    /// The request, saving into `path`.
    pub fn output(self, path: &str) -> (r: DownloadRequestBuilder)
        ensures
            r.output matches Some(o) && o@ == path@,
            r == (DownloadRequestBuilder { output: r.output, ..self }),
    {
        DownloadRequestBuilder { output: Some(owned(path)), ..self }
    }

    /// The request, with `n` downloads at a time.
    pub fn parallel(self, n: usize) -> (r: DownloadRequestBuilder)
        ensures
            r == (DownloadRequestBuilder { parallel: Some(n), ..self }),
    {
        DownloadRequestBuilder { parallel: Some(n), ..self }
    }

    /// The request, embedding metadata or not.
    pub fn embed_metadata(self, enabled: bool) -> (r: DownloadRequestBuilder)
        ensures
            r == (DownloadRequestBuilder { embed_metadata: Some(enabled), ..self }),
    {
        DownloadRequestBuilder { embed_metadata: Some(enabled), ..self }
    }

    /// The request, embedding the thumbnail or not.
    pub fn embed_thumbnail(self, enabled: bool) -> (r: DownloadRequestBuilder)
        ensures
            r == (DownloadRequestBuilder { embed_thumbnail: Some(enabled), ..self }),
    {
        DownloadRequestBuilder { embed_thumbnail: Some(enabled), ..self }
    }

    /// The request, embedding subtitles or not.
    pub fn embed_subtitles(self, enabled: bool) -> (r: DownloadRequestBuilder)
        ensures
            r == (DownloadRequestBuilder { embed_subtitles: Some(enabled), ..self }),
    {
        DownloadRequestBuilder { embed_subtitles: Some(enabled), ..self }
    }

    /// The request, giving up after `seconds`.
    pub fn timeout(self, seconds: u64) -> (r: DownloadRequestBuilder)
        ensures
            r == (DownloadRequestBuilder { timeout: Some(seconds), ..self }),
    {
        DownloadRequestBuilder { timeout: Some(seconds), ..self }
    }

    /// The request, retrying at most `n` times.
    pub fn max_retries(self, n: u32) -> (r: DownloadRequestBuilder)
        ensures
            r == (DownloadRequestBuilder { max_retries: Some(n), ..self }),
    {
        DownloadRequestBuilder { max_retries: Some(n), ..self }
    }

    /// The request, updating dependencies first or not.
    pub fn auto_update(self, enabled: bool) -> (r: DownloadRequestBuilder)
        ensures
            r == (DownloadRequestBuilder { auto_update: Some(enabled), ..self }),
    {
        DownloadRequestBuilder { auto_update: Some(enabled), ..self }
    }
}

/// The defaults of a downloader, before its dependencies are set up.
pub struct SourisDWBuilder {
    pub auto_update: bool,
    pub yt_dlp_channel: String,
    pub format: Option<Format>,
    pub quality: Option<Quality>,
    pub output: Option<String>,
    pub parallel: usize,
    pub embed_metadata: bool,
    pub embed_thumbnail: bool,
    pub embed_subtitles: bool,
    pub timeout: u64,
    pub max_retries: u32,
    pub spotify_client_id: Option<String>,
    pub spotify_client_secret: Option<String>,
    pub cookies_file: Option<String>,
    pub cookies_from_browser: Option<String>,
    pub quiet_deps: bool,
}

/// Whether `b` holds the builder's defaults: automatic updates of yt-dlp's
/// stable channel, mp4 at 1080p, four downloads at a time, metadata and
/// thumbnail embedded, no subtitles, a timeout of 300 seconds, three
/// retries, no output directory, credentials or cookies, and progress
/// shown while dependencies download.
pub open spec fn builder_defaults(b: SourisDWBuilder) -> bool {
    &&& b.auto_update
    &&& b.yt_dlp_channel@ == "stable"@
    &&& b.format == Some(Format::Video(VideoFormat::Mp4))
    &&& b.quality == Some(Quality::Video(VideoQuality::P1080))
    &&& b.output is None
    &&& b.parallel == 4
    &&& b.embed_metadata
    &&& b.embed_thumbnail
    &&& !b.embed_subtitles
    &&& b.timeout == 300
    &&& b.max_retries == 3
    &&& b.spotify_client_id is None
    &&& b.spotify_client_secret is None
    &&& b.cookies_file is None
    &&& b.cookies_from_browser is None
    &&& !b.quiet_deps
}

impl SourisDWBuilder {
    /// A builder holding the defaults (see [`builder_defaults`]).
    pub fn new() -> (b: SourisDWBuilder)
        ensures
            builder_defaults(b),
    {
        SourisDWBuilder {
            auto_update: true,
            yt_dlp_channel: owned("stable"),
            format: Some(Format::Video(VideoFormat::Mp4)),
            quality: Some(Quality::Video(VideoQuality::P1080)),
            output: None,
            parallel: 4,
            embed_metadata: true,
            embed_thumbnail: true,
            embed_subtitles: false,
            timeout: 300,
            max_retries: 3,
            spotify_client_id: None,
            spotify_client_secret: None,
            cookies_file: None,
            cookies_from_browser: None,
            quiet_deps: false,
        }
    }

    /// The builder, updating dependencies or not.
    pub fn auto_update(self, enabled: bool) -> (r: SourisDWBuilder)
        ensures
            r == (SourisDWBuilder { auto_update: enabled, ..self }),
    {
        SourisDWBuilder { auto_update: enabled, ..self }
    }

    /// The builder, following the yt-dlp release `channel`.
    pub fn yt_dlp_channel(self, channel: &str) -> (r: SourisDWBuilder)
        ensures
            r.yt_dlp_channel@ == channel@,
            r == (SourisDWBuilder { yt_dlp_channel: r.yt_dlp_channel, ..self }),
    {
        SourisDWBuilder { yt_dlp_channel: owned(channel), ..self }
    }

    /// The builder, downloading in `format` by default.
    pub fn format(self, format: Format) -> (r: SourisDWBuilder)
        ensures
            r == (SourisDWBuilder { format: Some(format), ..self }),
    {
        SourisDWBuilder { format: Some(format), ..self }
    }

    /// The builder, downloading in the format named by `s` by default; an
    /// `UnsupportedFormat` error for an unknown name.
    pub fn format_str(self, s: &str) -> (r: Result<SourisDWBuilder, SourisError>)
        ensures
            Format::from_lower(lowercase_of(s@)) matches Some(f) ==> (r matches Ok(b) && b == (SourisDWBuilder {
                format: Some(f),
                ..self
            })),
            Format::from_lower(lowercase_of(s@)) is None ==> (r matches Err(SourisError::UnsupportedFormat { format })
                && format@ == s@),
    {
        match Format::parse(s) {
            Ok(f) => Ok(SourisDWBuilder { format: Some(f), ..self }),
            Err(e) => Err(e),
        }
    }

    /// The builder, downloading at `quality` by default.
    pub fn quality(self, quality: Quality) -> (r: SourisDWBuilder)
        ensures
            r == (SourisDWBuilder { quality: Some(quality), ..self }),
    {
        SourisDWBuilder { quality: Some(quality), ..self }
    }

    /// The builder, downloading at the quality named by `s` by default; an
    /// `UnsupportedQuality` error for an unknown name.
    pub fn quality_str(self, s: &str) -> (r: Result<SourisDWBuilder, SourisError>)
        ensures
            Quality::from_lower(lowercase_of(s@)) matches Some(q) ==> (r matches Ok(b) && b == (SourisDWBuilder {
                quality: Some(q),
                ..self
            })),
            Quality::from_lower(lowercase_of(s@)) is None ==> (r matches Err(SourisError::UnsupportedQuality { quality })
                && quality@ == s@),
    {
        match Quality::parse(s) {
            Ok(q) => Ok(SourisDWBuilder { quality: Some(q), ..self }),
            Err(e) => Err(e),
        }
    }

    /// The builder, saving into `path` by default.
    pub fn output(self, path: &str) -> (r: SourisDWBuilder)
        ensures
            r.output matches Some(o) && o@ == path@,
            r == (SourisDWBuilder { output: r.output, ..self }),
    {
        SourisDWBuilder { output: Some(owned(path)), ..self }
    }

    /// The builder, with `n` downloads at a time.
    pub fn parallel(self, n: usize) -> (r: SourisDWBuilder)
        ensures
            r == (SourisDWBuilder { parallel: n, ..self }),
    {
        SourisDWBuilder { parallel: n, ..self }
    }

    /// The builder, embedding metadata or not by default.
    pub fn embed_metadata(self, enabled: bool) -> (r: SourisDWBuilder)
        ensures
            r == (SourisDWBuilder { embed_metadata: enabled, ..self }),
    {
        SourisDWBuilder { embed_metadata: enabled, ..self }
    }

    /// The builder, embedding thumbnails or not by default.
    pub fn embed_thumbnail(self, enabled: bool) -> (r: SourisDWBuilder)
        ensures
            r == (SourisDWBuilder { embed_thumbnail: enabled, ..self }),
    {
        SourisDWBuilder { embed_thumbnail: enabled, ..self }
    }

    /// The builder, embedding subtitles or not by default.
    pub fn embed_subtitles(self, enabled: bool) -> (r: SourisDWBuilder)
        ensures
            r == (SourisDWBuilder { embed_subtitles: enabled, ..self }),
    {
        SourisDWBuilder { embed_subtitles: enabled, ..self }
    }

    /// The builder, giving up after `seconds` by default.
    pub fn timeout(self, seconds: u64) -> (r: SourisDWBuilder)
        ensures
            r == (SourisDWBuilder { timeout: seconds, ..self }),
    {
        SourisDWBuilder { timeout: seconds, ..self }
    }

    /// The builder, retrying at most `n` times by default.
    pub fn max_retries(self, n: u32) -> (r: SourisDWBuilder)
        ensures
            r == (SourisDWBuilder { max_retries: n, ..self }),
    {
        SourisDWBuilder { max_retries: n, ..self }
    }

    /// The builder, with Spotify client credentials.
    pub fn spotify_credentials(self, client_id: String, client_secret: String) -> (r: SourisDWBuilder)
        ensures
            r == (SourisDWBuilder { spotify_client_id: Some(client_id), spotify_client_secret: Some(client_secret), ..self }),
    {
        SourisDWBuilder { spotify_client_id: Some(client_id), spotify_client_secret: Some(client_secret), ..self }
    }

    /// The builder, reading cookies from the file at `path`.
    pub fn cookies_file(self, path: &str) -> (r: SourisDWBuilder)
        ensures
            r.cookies_file matches Some(c) && c@ == path@,
            r == (SourisDWBuilder { cookies_file: r.cookies_file, ..self }),
    {
        SourisDWBuilder { cookies_file: Some(owned(path)), ..self }
    }

    /// The builder, reading cookies from `browser`.
    pub fn cookies_from_browser(self, browser: &str) -> (r: SourisDWBuilder)
        ensures
            r.cookies_from_browser matches Some(c) && c@ == browser@,
            r == (SourisDWBuilder { cookies_from_browser: r.cookies_from_browser, ..self }),
    {
        SourisDWBuilder { cookies_from_browser: Some(owned(browser)), ..self }
    }

    /// The builder, hiding the progress of dependency downloads or not.
    pub fn quiet_deps(self, quiet: bool) -> (r: SourisDWBuilder)
        ensures
            r == (SourisDWBuilder { quiet_deps: quiet, ..self }),
    {
        SourisDWBuilder { quiet_deps: quiet, ..self }
    }

    /// The downloader with these defaults, working with `deps` through
    /// `resolver`; it saves into the builder's output directory, or into
    /// `./downloads` when none was set.
    pub fn finish(self, deps: DepManager, resolver: Resolver) -> (dw: SourisDW)
        ensures
            dw.defaults.format == self.format,
            dw.defaults.quality == self.quality,
            self.output matches Some(o) ==> dw.defaults.output@ == o@,
            self.output is None ==> dw.defaults.output@ == "./downloads"@,
            dw.defaults.parallel == self.parallel,
            dw.defaults.embed_metadata == self.embed_metadata,
            dw.defaults.embed_thumbnail == self.embed_thumbnail,
            dw.defaults.embed_subtitles == self.embed_subtitles,
            dw.defaults.timeout == self.timeout,
            dw.defaults.max_retries == self.max_retries,
            opt_view(dw.defaults.cookies_file) == opt_view(self.cookies_file),
            opt_view(dw.defaults.cookies_from_browser) == opt_view(self.cookies_from_browser),
            dw.deps == deps,
    {
        let output = match &self.output {
            Some(o) => owned(o.as_str()),
            None => owned("./downloads"),
        };
        let defaults = Defaults {
            format: self.format,
            quality: self.quality,
            output,
            parallel: self.parallel,
            embed_metadata: self.embed_metadata,
            embed_thumbnail: self.embed_thumbnail,
            embed_subtitles: self.embed_subtitles,
            timeout: self.timeout,
            max_retries: self.max_retries,
            cookies_file: self.cookies_file,
            cookies_from_browser: self.cookies_from_browser,
        };
        SourisDW { deps, resolver, defaults }
    }
}

impl Default for SourisDWBuilder {
    /// A builder holding the defaults (see [`builder_defaults`]).
    fn default() -> (b: SourisDWBuilder)
        ensures
            builder_defaults(b),
    {
        SourisDWBuilder::new()
    }
}

/// What a downloader does when a request does not say.
pub struct Defaults {
    pub format: Option<Format>,
    pub quality: Option<Quality>,
    pub output: String,
    pub parallel: usize,
    pub embed_metadata: bool,
    pub embed_thumbnail: bool,
    pub embed_subtitles: bool,
    pub timeout: u64,
    pub max_retries: u32,
    pub cookies_file: Option<String>,
    pub cookies_from_browser: Option<String>,
}

/// A downloader: its dependencies, the resolver that routes URLs, and its
/// defaults.
pub struct SourisDW {
    pub deps: DepManager,
    pub resolver: Resolver,
    pub defaults: Defaults,
}

/// Whether `r` is the request that a downloader with `d` makes for `url`:
/// every default spelled out, the media type left open.
pub open spec fn default_request(d: Defaults, url: Seq<char>, r: DownloadRequestBuilder) -> bool {
    &&& r.url@ == url
    &&& r.media_type is None
    &&& r.format == d.format
    &&& r.quality == d.quality
    &&& opt_view(r.output) == Some(d.output@)
    &&& r.parallel == Some(d.parallel)
    &&& r.embed_metadata == Some(d.embed_metadata)
    &&& r.embed_thumbnail == Some(d.embed_thumbnail)
    &&& r.embed_subtitles == Some(d.embed_subtitles)
    &&& r.timeout == Some(d.timeout)
    &&& r.max_retries == Some(d.max_retries)
    &&& r.auto_update is None
}

impl SourisDW {
    /// The status of the dependencies in use (see [`DepManager::status`]).
    pub fn update_check(&self) -> (r: Result<Vec<DepStatus>, SourisError>)
        ensures
            r matches Ok(v) && v.len() == 3 && status_entry(
                v@[0],
                "yt-dlp"@,
                self.deps.spec_yt_dlp().spec_version(),
                self.deps.spec_yt_dlp().spec_binary_path(),
            ) && status_entry(
                v@[1],
                "ffmpeg"@,
                self.deps.spec_ffmpeg().spec_version(),
                self.deps.spec_ffmpeg().spec_binary_path(),
            ) && status_entry(
                v@[2],
                "deno"@,
                self.deps.spec_deno().spec_version(),
                self.deps.spec_deno().spec_binary_path(),
            ) && forall|i: int| 0 <= i < 3 ==> (#[trigger] v@[i]).path@.len() == 0 ==> !v@[i].installed,
    {
        Ok(self.deps.status())
    }

    /// A request for `url` with this downloader's defaults.
    pub fn download(&self, url: &str) -> (r: DownloadRequestBuilder)
        ensures
            default_request(self.defaults, url@, r),
    {
        let d = &self.defaults;
        DownloadRequestBuilder {
            url: owned(url),
            media_type: None,
            format: d.format,
            quality: d.quality,
            output: Some(owned(d.output.as_str())),
            parallel: Some(d.parallel),
            embed_metadata: Some(d.embed_metadata),
            embed_thumbnail: Some(d.embed_thumbnail),
            embed_subtitles: Some(d.embed_subtitles),
            timeout: Some(d.timeout),
            max_retries: Some(d.max_retries),
            auto_update: None,
        }
    }

    /// A request for the audio of `url` with this downloader's defaults.
    pub fn download_audio(&self, url: &str) -> (r: DownloadRequestBuilder)
        ensures
            default_request(self.defaults, url@, DownloadRequestBuilder { media_type: None, ..r }),
            r.media_type == Some(MediaTypeHint::Audio),
    {
        self.download(url).media_type(MediaTypeHint::Audio)
    }

    /// A request for the video of `url` with this downloader's defaults.
    pub fn download_video(&self, url: &str) -> (r: DownloadRequestBuilder)
        ensures
            default_request(self.defaults, url@, DownloadRequestBuilder { media_type: None, ..r }),
            r.media_type == Some(MediaTypeHint::Video),
    {
        self.download(url).media_type(MediaTypeHint::Video)
    }

    /// A request for the playlist at `url` with this downloader's defaults.
    pub fn download_playlist(&self, url: &str) -> (r: DownloadRequestBuilder)
        ensures
            default_request(self.defaults, url@, DownloadRequestBuilder { media_type: None, ..r }),
            r.media_type == Some(MediaTypeHint::Playlist),
    {
        self.download(url).media_type(MediaTypeHint::Playlist)
    }

    /// What yt-dlp is asked for a request: the request's format, quality
    /// and media type; its output directory and embedding choices, each
    /// falling back to the downloader's; the dependencies' ffmpeg; and the
    /// downloader's cookies.
    pub fn options_for(&self, req: &DownloadRequestBuilder) -> (o: DownloadOptions)
        ensures
            o.format == req.format,
            o.quality == req.quality,
            o.media_type == req.media_type,
            o.output_dir@ == (match req.output {
                Some(p) => p@,
                None => self.defaults.output@,
            }),
            o.embed_metadata == (match req.embed_metadata {
                Some(b) => b,
                None => self.defaults.embed_metadata,
            }),
            o.embed_thumbnail == (match req.embed_thumbnail {
                Some(b) => b,
                None => self.defaults.embed_thumbnail,
            }),
            o.embed_subtitles == (match req.embed_subtitles {
                Some(b) => b,
                None => self.defaults.embed_subtitles,
            }),
            opt_view(o.ffmpeg_path) == Some(self.deps.spec_ffmpeg().spec_binary_path()),
            opt_view(o.cookies_file) == opt_view(self.defaults.cookies_file),
            opt_view(o.cookies_from_browser) == opt_view(self.defaults.cookies_from_browser),
    {
        let output_dir = match &req.output {
            Some(p) => owned(p.as_str()),
            None => owned(self.defaults.output.as_str()),
        };
        DownloadOptions {
            format: req.format,
            quality: req.quality,
            output_dir,
            embed_metadata: match req.embed_metadata {
                Some(b) => b,
                None => self.defaults.embed_metadata,
            },
            embed_thumbnail: match req.embed_thumbnail {
                Some(b) => b,
                None => self.defaults.embed_thumbnail,
            },
            embed_subtitles: match req.embed_subtitles {
                Some(b) => b,
                None => self.defaults.embed_subtitles,
            },
            media_type: req.media_type,
            ffmpeg_path: Some(owned(self.deps.ffmpeg().binary_path())),
            cookies_file: opt_to_owned(crate::deps::yt_dlp::opt_as_str(&self.defaults.cookies_file)),
            cookies_from_browser: opt_to_owned(crate::deps::yt_dlp::opt_as_str(&self.defaults.cookies_from_browser)),
        }
    }
}

} // verus!
