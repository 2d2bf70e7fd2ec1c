//! A point in time, to the second.

use chrono::{DateTime, Utc};
use vstd::prelude::*;

verus! {

/// A point in time in whole seconds since 1970-01-01T00:00:00Z. The epoch
/// itself stands for "no time given".
#[derive(Clone, Copy, Debug, PartialEq, Eq)]
pub struct Timestamp {
    seconds: i64,
}

impl View for Timestamp {
    type V = int;

    closed spec fn view(&self) -> int {
        self.seconds as int
    }
}

impl DeepView for Timestamp {
    type V = int;

    open spec fn deep_view(&self) -> int {
        self@
    }
}

/// The instant that chrono reads out of a calendar text, in whole seconds
/// since the epoch; `None` where chrono takes the text for no instant.
pub uninterp spec fn calendar_seconds(text: Seq<char>) -> Option<i64>;

/// The seconds counted for a calendar text: those of the instant it names,
/// zero where it names none.
pub open spec fn text_seconds(text: Seq<char>) -> int {
    match calendar_seconds(text) {
        Some(seconds) => seconds as int,
        None => 0,
    }
}

/// Reads a calendar text with chrono: `FromStr::from_str` for `DateTime<Utc>`,
/// which takes a date and a time with their offset in a relaxed form of RFC
/// 3339, and, on what it reads, `DateTime::timestamp`, the whole seconds from
/// the epoch to that instant. Taken on trust: that the outcome is a function
/// of the characters of `text`, the one that `calendar_seconds` names.
#[verifier::external_body]
fn parse_calendar_seconds(text: &str) -> (r: Option<i64>)
    ensures
        r == calendar_seconds(text@),
{
    match text.parse::<DateTime<Utc>>() {
        Ok(instant) => Some(instant.timestamp()),
        Err(_) => None,
    }
}

impl Timestamp {
    /// The instant `seconds` after the epoch, or before it where negative.
    pub fn from_seconds(seconds: i64) -> (r: Timestamp)
        ensures
            r@ == seconds,
    {
        Timestamp { seconds }
    }

    /// Seconds since the epoch.
    pub fn timestamp(&self) -> (seconds: i64)
        ensures
            seconds == self@,
    {
        self.seconds
    }

    /// The instant that a reading of a calendar text gave, the epoch where it
    /// gave none.
    pub fn from_parsed(parsed: Option<i64>) -> (r: Timestamp)
        ensures
            r@ == match parsed {
                Some(seconds) => seconds as int,
                None => 0,
            },
    {
        match parsed {
            Some(seconds) => Timestamp { seconds },
            None => Timestamp { seconds: 0 },
        }
    }

    /// The instant that a calendar text names, the epoch where it names none.
    pub fn from_text(text: &str) -> (r: Timestamp)
        ensures
            r@ == text_seconds(text@),
    {
        Timestamp::from_parsed(parse_calendar_seconds(text))
    }
}

impl Default for Timestamp {
    /// The epoch.
    fn default() -> (r: Timestamp)
        ensures
            r@ == 0,
    {
        Timestamp { seconds: 0 }
    }
}

} // verus!
