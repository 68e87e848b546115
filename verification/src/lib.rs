//! A media download library built around yt-dlp, ffmpeg and deno.
//!
//! - `media`: formats, qualities and the records that describe media and
//!   download results; the request builder and the downloader's defaults.
//! - `config`: the user configuration and its dotted keys.
//! - `deps`: the runtime dependencies: platform assets and URLs, version
//!   comparison, update decisions and the shell profile lines that put them
//!   on `PATH`.
//! - `extractors`: URL routing, the yt-dlp command lines of a download and
//!   the reading of yt-dlp's output, and Spotify's Web API.
//! - `postprocess`: ffmpeg and subtitle command lines.
//! - `tui`: key bindings, the state machine and time display of the
//!   terminal interface.
//! - `utils`, `text`: paths, file names, Unicode and string helpers.

pub mod text;
pub mod error;

pub use error::{Result, SourisError};
pub mod media;

pub use crate::media::types::{
    AudioFormat, AudioQuality, Format, MediaType, Quality, VideoFormat, VideoQuality,
};
pub mod utils;
pub mod config;

pub use config::AppConfig;
pub use crate::deps::{DepManager, DepStatus};
pub use crate::media::downloader::{DownloadRequestBuilder, SourisDW, SourisDWBuilder};
pub use crate::media::types::{DownloadResult, MediaInfo};
pub use crate::utils::paths::default_download_dir;
pub mod deps;
pub mod extractors;
pub mod postprocess;
pub mod tui;
