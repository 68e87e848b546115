//! How durations are shown in the terminal interface.

use vstd::prelude::*;
use crate::text::{concat2, concat3, decimal, u64_to_string};

verus! {

/// A number shown with at least two digits, as `{:02}` shows it.
pub open spec fn two_digits(n: nat) -> Seq<char> {
    if n < 10 { "0"@ + decimal(n) } else { decimal(n) }
}

/// A duration in seconds as `hh:mm:ss`, or `mm:ss` under an hour.
pub open spec fn duration_text(seconds: nat) -> Seq<char> {
    let hours = seconds / 3600;
    let minutes = (seconds % 3600) / 60;
    let secs = seconds % 60;
    if hours > 0 {
        two_digits(hours) + ":"@ + two_digits(minutes) + ":"@ + two_digits(secs)
    } else {
        two_digits(minutes) + ":"@ + two_digits(secs)
    }
}

/// An elapsed time in seconds as `mm:ss`, the minutes not capped.
pub open spec fn clock_text(seconds: nat) -> Seq<char> {
    two_digits(seconds / 60) + ":"@ + two_digits(seconds % 60)
}

fn two_digits_string(n: u64) -> (s: String)
    ensures
        s@ == two_digits(n as nat),
{
    let d = u64_to_string(n);
    if n < 10 {
        concat2("0", d.as_str())
    } else {
        d
    }
}

/// A duration in seconds as `hh:mm:ss`, or `mm:ss` under an hour.
pub fn format_duration(seconds: u64) -> (s: String)
    ensures
        s@ == duration_text(seconds as nat),
{
    let hours = seconds / 3600;
    let minutes = (seconds % 3600) / 60;
    let secs = seconds % 60;
    let m = two_digits_string(minutes);
    let sec = two_digits_string(secs);
    let tail = concat3(m.as_str(), ":", sec.as_str());
    if hours > 0 {
        let h = two_digits_string(hours);
        concat3(h.as_str(), ":", tail.as_str())
    } else {
        tail
    }
}

/// An elapsed time in seconds as `mm:ss`, the minutes not capped.
pub fn format_elapsed(seconds: u64) -> (s: String)
    ensures
        s@ == clock_text(seconds as nat),
{
    let m = two_digits_string(seconds / 60);
    let sec = two_digits_string(seconds % 60);
    concat3(m.as_str(), ":", sec.as_str())
}

} // verus!
