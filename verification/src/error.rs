//! The library's error type, its user-facing messages and the process exit
//! code that each error maps to.

use vstd::prelude::*;
use crate::text::{concat2, concat4, owned, u64_to_string, decimal};

verus! {

/// Everything that can go wrong in the library.
///
/// Errors that originate outside the library (I/O, JSON, HTTP and other
/// failures) carry the text of the underlying error.
#[derive(Debug)]
pub enum SourisError {
    DependencyNotFound { name: String },
    DependencyDownloadFailed { name: String, reason: String },
    DependencyUpdateFailed { name: String, reason: String },
    InvalidUrl { url: String },
    UnsupportedPlatform { platform: String },
    UnsupportedFormat { format: String },
    UnsupportedQuality { quality: String },
    DownloadFailed { reason: String },
    PostProcessFailed { stage: String, reason: String },
    IoError { path: String, source: String },
    JsonError(String),
    HttpError(String),
    ConfigError(String),
    FFmpegError(String),
    MetadataError(String),
    UnicodeError(String),
    Timeout { seconds: u64 },
    Cancelled,
    Other(String),
}

/// Shorthand for results whose error is a [`SourisError`].
pub type Result<T> = std::result::Result<T, SourisError>;

impl SourisError {
    /// The user-facing message of the error.
    pub open spec fn message(&self) -> Seq<char> {
        match self {
            SourisError::DependencyNotFound { name } => "Dependency not found: "@ + name@,
            SourisError::DependencyDownloadFailed { name, reason } =>
                "Dependency download failed: "@ + name@ + " - "@ + reason@,
            SourisError::DependencyUpdateFailed { name, reason } =>
                "Dependency update failed: "@ + name@ + " - "@ + reason@,
            SourisError::InvalidUrl { url } => "Invalid URL: "@ + url@,
            SourisError::UnsupportedPlatform { platform } => "Unsupported platform: "@ + platform@,
            SourisError::UnsupportedFormat { format } => "Unsupported format: "@ + format@,
            SourisError::UnsupportedQuality { quality } => "Unsupported quality: "@ + quality@,
            SourisError::DownloadFailed { reason } => "Download failed: "@ + reason@,
            SourisError::PostProcessFailed { stage, reason } =>
                "Post-processing failed: "@ + stage@ + " - "@ + reason@,
            SourisError::IoError { path, source } => "IO error at "@ + path@ + ": "@ + source@,
            SourisError::JsonError(m) => "JSON parse error: "@ + m@,
            SourisError::HttpError(m) => "HTTP error: "@ + m@,
            SourisError::ConfigError(m) => "Config error: "@ + m@,
            SourisError::FFmpegError(m) => "FFmpeg error: "@ + m@,
            SourisError::MetadataError(m) => "Metadata error: "@ + m@,
            SourisError::UnicodeError(m) => "Unicode error: "@ + m@,
            SourisError::Timeout { seconds } => "Timeout after "@ + decimal(*seconds as nat) + "s"@,
            SourisError::Cancelled => "Cancelled by user"@,
            SourisError::Other(m) => m@,
        }
    }

    /// The process exit code of the error: 2 for dependency errors, 3 for
    /// network errors and timeouts, 0 for a cancellation and 1 otherwise.
    pub open spec fn spec_exit_code(&self) -> i32 {
        match self {
            SourisError::DependencyNotFound { .. } => 2,
            SourisError::DependencyDownloadFailed { .. } => 2,
            SourisError::DependencyUpdateFailed { .. } => 2,
            SourisError::DownloadFailed { .. } => 1,
            SourisError::HttpError(_) => 3,
            SourisError::Timeout { .. } => 3,
            SourisError::Cancelled => 0,
            _ => 1,
        }
    }

    /// The user-facing message of the error.
    pub fn to_string(&self) -> (s: String)
        ensures
            s@ == self.message(),
    {
        match self {
            SourisError::DependencyNotFound { name } => concat2("Dependency not found: ", name.as_str()),
            SourisError::DependencyDownloadFailed { name, reason } =>
                concat4("Dependency download failed: ", name.as_str(), " - ", reason.as_str()),
            SourisError::DependencyUpdateFailed { name, reason } =>
                concat4("Dependency update failed: ", name.as_str(), " - ", reason.as_str()),
            SourisError::InvalidUrl { url } => concat2("Invalid URL: ", url.as_str()),
            SourisError::UnsupportedPlatform { platform } =>
                concat2("Unsupported platform: ", platform.as_str()),
            SourisError::UnsupportedFormat { format } => concat2("Unsupported format: ", format.as_str()),
            SourisError::UnsupportedQuality { quality } =>
                concat2("Unsupported quality: ", quality.as_str()),
            SourisError::DownloadFailed { reason } => concat2("Download failed: ", reason.as_str()),
            SourisError::PostProcessFailed { stage, reason } =>
                concat4("Post-processing failed: ", stage.as_str(), " - ", reason.as_str()),
            SourisError::IoError { path, source } =>
                concat4("IO error at ", path.as_str(), ": ", source.as_str()),
            SourisError::JsonError(m) => concat2("JSON parse error: ", m.as_str()),
            SourisError::HttpError(m) => concat2("HTTP error: ", m.as_str()),
            SourisError::ConfigError(m) => concat2("Config error: ", m.as_str()),
            SourisError::FFmpegError(m) => concat2("FFmpeg error: ", m.as_str()),
            SourisError::MetadataError(m) => concat2("Metadata error: ", m.as_str()),
            SourisError::UnicodeError(m) => concat2("Unicode error: ", m.as_str()),
            SourisError::Timeout { seconds } => {
                let n = u64_to_string(*seconds);
                let s = concat2("Timeout after ", n.as_str());
                s.concat("s")
            },
            SourisError::Cancelled => owned("Cancelled by user"),
            SourisError::Other(m) => owned(m.as_str()),
        }
    }

    /// The process exit code of the error.
    pub fn exit_code(&self) -> (code: i32)
        ensures
            code == self.spec_exit_code(),
    {
        match self {
            SourisError::DependencyNotFound { .. } => 2,
            SourisError::DependencyDownloadFailed { .. } => 2,
            SourisError::DependencyUpdateFailed { .. } => 2,
            SourisError::DownloadFailed { .. } => 1,
            SourisError::HttpError(_) => 3,
            SourisError::Timeout { .. } => 3,
            SourisError::Cancelled => 0,
            _ => 1,
        }
    }

    /// An I/O error at a path, carrying the text of the underlying error.
    pub fn io(path: &str, source: &str) -> (e: SourisError)
        ensures
            e matches SourisError::IoError { path: p, source: s } && p@ == path@ && s@ == source@,
    {
        SourisError::IoError { path: owned(path), source: owned(source) }
    }
}

} // verus!
