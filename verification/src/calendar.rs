//! UTC calendar text for an instant: the day key under which a day's
//! counters are stored, and the timestamp that starts a log line.

use vstd::prelude::*;
use crate::model::optional_text;

verus! {

/// The pattern of a day key: year, month and day, as in `2024-01-31`.
pub const DAY_PATTERN: &'static str = "%Y-%m-%d";

/// The pattern of a log timestamp: the day, a space, and the time of day to
/// the second, as in `2024-01-31 23:59:59`.
pub const TIMESTAMP_PATTERN: &'static str = "%Y-%m-%d %H:%M:%S";

/// The text that chrono writes under `pattern` for the UTC instant `secs`
/// seconds after the Unix epoch, or `None` for an instant outside the range
/// of dates that chrono can hold.
pub uninterp spec fn utc_text(secs: i64, pattern: Seq<char>) -> Option<Seq<char>>;

/// Calls `chrono::DateTime::from_timestamp` to turn the seconds into a UTC
/// date and time, then `DateTime::format` with the pattern.
///
/// Trusted: the result is a function of the seconds and the pattern alone,
/// and it is `None` exactly when chrono cannot hold the instant. Writing the
/// text fails on a malformed pattern, so only the two patterns of this module
/// are admitted; both are made of year, month, day, hour, minute and second
/// fields and literal characters.
#[verifier::external_body]
fn format_utc(secs: i64, pattern: &str) -> (text: Option<String>)
    requires
        pattern@ == DAY_PATTERN@ || pattern@ == TIMESTAMP_PATTERN@,
    ensures
        optional_text(text) == utc_text(secs, pattern@),
{
    match chrono::DateTime::from_timestamp(secs, 0) {
        Some(instant) => Some(instant.format(pattern).to_string()),
        None => None,
    }
}

/// The day key of the UTC day that holds the instant `now_secs` seconds
/// after the Unix epoch.
pub fn day_key(now_secs: i64) -> (key: Option<String>)
    ensures
        optional_text(key) == utc_text(now_secs, DAY_PATTERN@),
{
    format_utc(now_secs, DAY_PATTERN)
}

/// The log timestamp of the instant `now_secs` seconds after the Unix epoch.
pub fn log_timestamp(now_secs: i64) -> (stamp: Option<String>)
    ensures
        optional_text(stamp) == utc_text(now_secs, TIMESTAMP_PATTERN@),
{
    format_utc(now_secs, TIMESTAMP_PATTERN)
}

} // verus!
