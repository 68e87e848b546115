//! The states of the terminal interface.

use vstd::prelude::*;

verus! {

/// Where a download in the list stands.
#[derive(Debug, Clone)]
pub enum DownloadStatus {
    Queued,
    Downloading,
    PostProcessing,
    Complete,
    Error(String),
}

/// What the keyboard is typing into.
#[derive(Debug, Clone, Copy, PartialEq, Eq, Structural)]
pub enum InputMode {
    Normal,
    Input,
    Search,
}

} // verus!
