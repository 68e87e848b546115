pub mod downloader;
pub mod request;
pub mod types;
