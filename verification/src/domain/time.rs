//! Points in time and spans of time, in whole seconds.

use crate::errors::Error;
use std::fmt::Write;
use vstd::prelude::*;

verus! {

/// `chrono::ParseError`, the reason why `chrono` refuses a text or a
/// format. Nothing is known of its values.
#[verifier::external_type_specification]
#[verifier::external_body]
pub struct ExChronoParseError(chrono::ParseError);

/// The seconds since the Unix epoch of the point in time that
/// `chrono::DateTime::parse_from_str` reads out of `text` in the format
/// given; `None` where it refuses the text or the format.
pub uninterp spec fn parsed_timestamp(text: Seq<char>, format: Seq<char>) -> Option<i64>;

/// What `chrono::DateTime::format` writes, in the format given, for the
/// point in time so many seconds after the Unix epoch, in UTC; `None`
/// where `chrono` has no such point in time or refuses the format.
pub uninterp spec fn formatted_timestamp(timestamp: i64, format: Seq<char>) -> Option<Seq<char>>;

/// Calls `chrono::DateTime::parse_from_str` and takes the seconds of the
/// result with `DateTime::timestamp`. Trusted: that the outcome is a
/// function of the text and the format alone.
#[verifier::external_body]
fn parse_timestamp(text: &str, format: &str) -> (res: Result<i64, chrono::ParseError>)
    ensures
        match res {
            Ok(timestamp) => parsed_timestamp(text@, format@) == Some(timestamp),
            Err(_) => parsed_timestamp(text@, format@) is None,
        },
{
    Ok(chrono::DateTime::parse_from_str(text, format)?.timestamp())
}

/// Calls `chrono::DateTime::from_timestamp` and writes the result with
/// `DateTime::format`. Trusted: that the outcome is a function of the
/// seconds and the format alone.
#[verifier::external_body]
fn format_timestamp(timestamp: i64, format: &str) -> (res: Option<String>)
    ensures
        match res {
            Some(text) => formatted_timestamp(timestamp, format@) == Some(text@),
            None => formatted_timestamp(timestamp, format@) is None,
        },
{
    let date_time = chrono::DateTime::from_timestamp(timestamp, 0)?;
    let mut text = String::new();
    write!(text, "{}", date_time.format(format)).ok()?;
    Some(text)
}

/// A point in time: seconds since the Unix epoch, UTC.
#[derive(Debug, Clone, Copy, PartialEq, Eq, Structural, PartialOrd, Ord, Hash)]
pub struct DateTime {
    pub timestamp: i64,
}

/// A span of time in seconds; negative when it runs backwards.
#[derive(Debug, Clone, Copy, PartialEq, Eq, Structural, PartialOrd, Ord, Hash)]
pub struct Duration {
    pub seconds: i128,
}

impl DateTime {
    /// The point in time so many seconds after the Unix epoch.
    pub fn new(timestamp: i64) -> (dt: DateTime)
        ensures
            dt.timestamp == timestamp,
    {
        DateTime { timestamp }
    }

    /// The seconds since the Unix epoch.
    pub fn timestamp(&self) -> (t: i64)
        ensures
            t == self.timestamp,
    {
        self.timestamp
    }

    /// Reads a point in time out of `s`, written in `format`.
    pub fn new_from_str(s: &str, format: &str) -> (res: Result<DateTime, Error>)
        ensures
            match res {
                Ok(date_time) => parsed_timestamp(s@, format@) == Some(date_time.timestamp),
                Err(e) => parsed_timestamp(s@, format@) is None && e == Error::InvalidDateTime,
            },
    {
        match parse_timestamp(s, format) {
            Ok(timestamp) => Ok(DateTime { timestamp }),
            Err(_) => Err(Error::InvalidDateTime),
        }
    }

    /// Writes the point in time in `format`, in UTC.
    pub fn format(&self, format: &str) -> (res: Result<String, Error>)
        ensures
            match res {
                Ok(text) => formatted_timestamp(self.timestamp, format@) == Some(text@),
                Err(e) => formatted_timestamp(self.timestamp, format@) is None && e
                    == Error::CannotFormatDateTime,
            },
    {
        match format_timestamp(self.timestamp, format) {
            Some(text) => Ok(text),
            None => Err(Error::CannotFormatDateTime),
        }
    }

    /// The point in time that `t` refers to, if any.
    pub fn copy_of(t: Option<&DateTime>) -> (copy: Option<DateTime>)
        ensures
            copy.is_some() == t.is_some(),
            t matches Some(r) ==> copy == Some(*r),
    {
        match t {
            Some(r) => Some(*r),
            None => None,
        }
    }

    /// Seconds from `earlier` to `self`.
    pub open spec fn spec_since(self, earlier: DateTime) -> int {
        self.timestamp - earlier.timestamp
    }

    /// The span of time from `earlier` to `self`.
    pub fn since(&self, earlier: &DateTime) -> (d: Duration)
        ensures
            d.seconds == self.spec_since(*earlier),
    {
        let later: i128 = self.timestamp as i128;
        let before: i128 = earlier.timestamp as i128;
        Duration { seconds: later - before }
    }
}

impl Duration {
    /// The span of so many minutes.
    pub fn new_from_minutes(minutes: u64) -> (d: Duration)
        ensures
            d.seconds == minutes * 60,
    {
        let m: i128 = minutes as i128;
        Duration { seconds: m * 60 }
    }

    /// The span of so many hours.
    pub fn new_from_hours(hours: u64) -> (d: Duration)
        ensures
            d.seconds == hours * 3600,
    {
        let h: i128 = hours as i128;
        Duration { seconds: h * 3600 }
    }

    /// The span in seconds.
    pub fn seconds(&self) -> (s: i128)
        ensures
            s == self.seconds,
    {
        self.seconds
    }

    /// Whether the span is longer than `other`.
    pub fn is_longer_than(&self, other: &Duration) -> (longer: bool)
        ensures
            longer == (self.seconds > other.seconds),
    {
        self.seconds > other.seconds
    }

    /// Whether the span is shorter than `other`.
    pub fn is_shorter_than(&self, other: &Duration) -> (shorter: bool)
        ensures
            shorter == (self.seconds < other.seconds),
    {
        self.seconds < other.seconds
    }
}

} // verus!
