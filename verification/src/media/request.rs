//! Hints and conversions used when a download is requested: the media type
//! hint and the conversions of user values into formats and qualities.

use vstd::prelude::*;
use crate::media::types::{Format, Quality};
use crate::text::lowercase_of;

verus! {

/// What the caller expects a URL to yield.
#[derive(Debug, Clone, Copy, PartialEq, Eq, Structural)]
pub enum MediaTypeHint {
    Audio,
    Video,
    Playlist,
    Auto,
}

/// Values that can stand for a [`Format`].
pub trait IntoFormat: Sized {
    /// Whether the value stands for some format.
    spec fn names_format(&self) -> bool;

    /// The format the value stands for.
    spec fn format_named(&self) -> Format;

    /// The format the value stands for.
    fn into_format(self) -> (f: Format)
        requires
            self.names_format(),
        ensures
            f == self.format_named(),
    ;
}

impl IntoFormat for Format {
    open spec fn names_format(&self) -> bool {
        true
    }

    open spec fn format_named(&self) -> Format {
        *self
    }

    fn into_format(self) -> (f: Format) {
        self
    }
}

impl<'a> IntoFormat for &'a str {
    open spec fn names_format(&self) -> bool {
        Format::from_lower(lowercase_of((*self)@)) is Some
    }

    open spec fn format_named(&self) -> Format {
        Format::from_lower(lowercase_of((*self)@)).unwrap()
    }

    fn into_format(self) -> (f: Format) {
        match Format::parse(self) {
            Ok(f) => f,
            Err(_) => {
                assert(false);
                Format::Video(crate::media::types::VideoFormat::Mp4)
            },
        }
    }
}

impl IntoFormat for String {
    open spec fn names_format(&self) -> bool {
        Format::from_lower(lowercase_of(self@)) is Some
    }

    open spec fn format_named(&self) -> Format {
        Format::from_lower(lowercase_of(self@)).unwrap()
    }

    fn into_format(self) -> (f: Format) {
        self.as_str().into_format()
    }
}

/// Values that can stand for a [`Quality`].
pub trait IntoQuality: Sized {
    /// Whether the value stands for some quality.
    spec fn names_quality(&self) -> bool;

    /// The quality the value stands for.
    spec fn quality_named(&self) -> Quality;

    /// The quality the value stands for.
    fn into_quality(self) -> (q: Quality)
        requires
            self.names_quality(),
        ensures
            q == self.quality_named(),
    ;
}

impl IntoQuality for Quality {
    open spec fn names_quality(&self) -> bool {
        true
    }

    open spec fn quality_named(&self) -> Quality {
        *self
    }

    fn into_quality(self) -> (q: Quality) {
        self
    }
}

impl<'a> IntoQuality for &'a str {
    open spec fn names_quality(&self) -> bool {
        Quality::from_lower(lowercase_of((*self)@)) is Some
    }

    open spec fn quality_named(&self) -> Quality {
        Quality::from_lower(lowercase_of((*self)@)).unwrap()
    }

    fn into_quality(self) -> (q: Quality) {
        match Quality::parse(self) {
            Ok(q) => q,
            Err(_) => {
                assert(false);
                Quality::Video(crate::media::types::VideoQuality::P1080)
            },
        }
    }
}

impl IntoQuality for String {
    open spec fn names_quality(&self) -> bool {
        Quality::from_lower(lowercase_of(self@)) is Some
    }

    open spec fn quality_named(&self) -> Quality {
        Quality::from_lower(lowercase_of(self@)).unwrap()
    }

    fn into_quality(self) -> (q: Quality) {
        self.as_str().into_quality()
    }
}

} // verus!
