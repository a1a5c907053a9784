//! Points in time: an instant with the offset from UTC under which it is shown.
//!
//! A [`Timestamp`] holds both as plain integers. The `time` crate reads the
//! clock and converts between the integers and RFC 3339 text, the one form in
//! which timestamps are stored.

use vstd::prelude::*;

verus! {

/// What `time::OffsetDateTime::format` writes with `Rfc3339` for the date-time
/// that lies `unix_nanos` nanoseconds after the Unix epoch and is shown at
/// `offset_seconds` east of UTC; `None` where there is no such date-time in
/// the crate's range or the format cannot show it.
pub uninterp spec fn rfc3339_text(unix_nanos: i128, offset_seconds: i32) -> Option<Seq<char>>;

/// What `time::OffsetDateTime::parse` reads with `Rfc3339` from a text: the
/// nanoseconds after the Unix epoch and the offset in seconds, or `None` where
/// it rejects the text.
pub uninterp spec fn rfc3339_parse(text: Seq<char>) -> Option<(i128, i32)>;

/// Calls `time::OffsetDateTime::now_utc` and hands out the nanoseconds since
/// the Unix epoch. The value is the clock's, so nothing is said of it.
#[verifier::external_body]
fn clock_unix_nanos() -> i128 {
    time::OffsetDateTime::now_utc().unix_timestamp_nanos()
}

/// Calls `time::OffsetDateTime::format` with `Rfc3339` on the date-time built
/// from the two integers.
///
/// The result is `None` where the crate has no such offset or date-time, or
/// where the format refuses it. A text that comes out is one that
/// `time::OffsetDateTime::parse` reads back to the same instant and offset.
#[verifier::external_body]
fn rfc3339_format(unix_nanos: i128, offset_seconds: i32) -> (text: Option<String>)
    ensures
        rfc3339_text(unix_nanos, offset_seconds) == match text {
            Some(t) => Some(t@),
            None => None,
        },
        text matches Some(t) ==> rfc3339_parse(t@) == Some((unix_nanos, offset_seconds)),
{
    let offset = time::UtcOffset::from_whole_seconds(offset_seconds).ok()?;
    let utc = time::OffsetDateTime::from_unix_timestamp_nanos(unix_nanos).ok()?;
    let local = utc.checked_to_offset(offset)?;
    local.format(&time::format_description::well_known::Rfc3339).ok()
}

/// Calls `time::OffsetDateTime::parse` with `Rfc3339` and hands out the
/// instant and the offset as integers.
#[verifier::external_body]
fn rfc3339_read(text: &str) -> (parts: Option<(i128, i32)>)
    ensures
        parts == rfc3339_parse(text@),
{
    match time::OffsetDateTime::parse(text, &time::format_description::well_known::Rfc3339) {
        Ok(parsed) => Some((parsed.unix_timestamp_nanos(), parsed.offset().whole_seconds())),
        Err(_) => None,
    }
}

/// An instant, and the offset from UTC under which it is shown.
#[derive(Debug, Clone, Copy, PartialEq, Eq, Hash, Structural)]
pub struct Timestamp {
    /// Nanoseconds since 1970-01-01T00:00:00Z.
    pub unix_nanos: i128,
    /// Seconds east of UTC.
    pub offset_seconds: i32,
}

impl Timestamp {
    /// The stored text of the timestamp, where it has one.
    pub open spec fn text(self) -> Option<Seq<char>> {
        rfc3339_text(self.unix_nanos, self.offset_seconds)
    }

    /// The timestamp that a stored text stands for, if it stands for one.
    pub open spec fn from_text(text: Seq<char>) -> Option<Timestamp> {
        match rfc3339_parse(text) {
            Some(parts) => Some(Timestamp { unix_nanos: parts.0, offset_seconds: parts.1 }),
            None => None,
        }
    }

    /// The current time, shown in UTC.
    pub fn now_utc() -> (now: Timestamp)
        ensures
            now.offset_seconds == 0,
    {
        Timestamp { unix_nanos: clock_unix_nanos(), offset_seconds: 0 }
    }

    /// Writes the timestamp as RFC 3339 text, which `parse_rfc3339` reads back
    /// to the same timestamp; `None` where the timestamp has no such text.
    pub fn to_rfc3339(&self) -> (text: Option<String>)
        ensures
            self.text() == match text {
                Some(t) => Some(t@),
                None => None,
            },
            text matches Some(t) ==> Timestamp::from_text(t@) == Some(*self),
    {
        rfc3339_format(self.unix_nanos, self.offset_seconds)
    }

    /// Reads a timestamp from RFC 3339 text; `None` where the text is not one.
    pub fn parse_rfc3339(text: &str) -> (stamp: Option<Timestamp>)
        ensures
            stamp == Timestamp::from_text(text@),
    {
        match rfc3339_read(text) {
            Some(parts) => Some(Timestamp { unix_nanos: parts.0, offset_seconds: parts.1 }),
            None => None,
        }
    }

    /// Whether this instant is not later than the other.
    pub fn not_after(&self, other: &Timestamp) -> (b: bool)
        ensures
            b == (self.unix_nanos <= other.unix_nanos),
    {
        self.unix_nanos <= other.unix_nanos
    }
}

} // verus!
