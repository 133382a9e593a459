//! The one date format of the service: `2023-04-14T06:29:29Z`.
//!
//! Times are seconds since the Unix epoch. Turning them into calendar dates
//! and back is the `chrono` crate's work.

use vstd::prelude::*;

verus! {

/// The text that `chrono` writes for a time under a pattern; `None` where
/// the time is out of its range or it cannot write the pattern.
pub uninterp spec fn formatted_time(seconds: i64, pattern: Seq<char>) -> Option<Seq<char>>;

/// The time that `chrono` reads from a text under a pattern; `None` where it
/// rejects the text.
pub uninterp spec fn parsed_time(text: Seq<char>, pattern: Seq<char>) -> Option<i64>;

pub open spec fn text_of(text: Option<String>) -> Option<Seq<char>> {
    match text {
        Some(t) => Some(t@),
        None => None,
    }
}

/// The pattern of the date format.
pub open spec fn date_pattern() -> Seq<char> {
    "%Y-%m-%dT%H:%M:%SZ"@
}

/// `chrono::DateTime::from_timestamp` in UTC with no nanoseconds, then
/// `DateTime::format`, written out by `DelayedFormat::write_to`. The result is
/// a function of the two arguments alone.
#[verifier::external_body]
pub(crate) fn format_seconds(seconds: i64, pattern: &str) -> (text: Option<String>)
    ensures
        text_of(text) == formatted_time(seconds, pattern@),
{
    let time = chrono::DateTime::<chrono::Utc>::from_timestamp(seconds, 0)?;
    let mut text = String::new();
    time.format(pattern).write_to(&mut text).ok()?;
    Some(text)
}

/// `chrono::TimeZone::datetime_from_str` on `chrono::Utc`, then
/// `DateTime::timestamp`. The result is a function of the two arguments
/// alone.
#[allow(deprecated)]
#[verifier::external_body]
pub(crate) fn parse_seconds(text: &str, pattern: &str) -> (seconds: Option<i64>)
    ensures
        seconds == parsed_time(text@, pattern@),
{
    chrono::TimeZone::datetime_from_str(&chrono::Utc, text, pattern).ok().map(|t| t.timestamp())
}

/// `chrono::Utc::now`, then `DateTime::timestamp`: the time of the call.
#[verifier::external_body]
pub(crate) fn current_seconds() -> (seconds: i64) {
    chrono::Utc::now().timestamp()
}

/// Writes a time in the date format.
pub fn serialize(seconds: i64) -> (text: Option<String>)
    ensures
        text_of(text) == formatted_time(seconds, date_pattern()),
{
    format_seconds(seconds, "%Y-%m-%dT%H:%M:%SZ")
}

/// Reads a time in the date format.
pub fn deserialize(text: &str) -> (seconds: Option<i64>)
    ensures
        seconds == parsed_time(text@, date_pattern()),
{
    parse_seconds(text, "%Y-%m-%dT%H:%M:%SZ")
}

/// The time of the call, in seconds since the Unix epoch.
pub fn now() -> (seconds: i64) {
    current_seconds()
}

} // verus!
