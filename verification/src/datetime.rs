//! Timestamp parsing at the boundary to the calendar library.
//!
//! Catalogue feeds report update times as RFC 3339 strings, as a plain
//! `"%Y-%m-%d %H:%M:%S"` pattern read as UTC, or as Unix epoch seconds.
//! The parsers live in the calendar crate; each is deterministic in its
//! string alone, so its result is named here and everything around the
//! calls is verified against those names. Times are carried as epoch
//! milliseconds.

use vstd::prelude::*;
use chrono::TimeZone;

verus! {

/// What RFC 3339 parsing yields on a string, in epoch milliseconds.
pub uninterp spec fn rfc3339_utc_ms(s: Seq<char>) -> Option<i64>;

/// What `"%Y-%m-%d %H:%M:%S"` parsing, read as UTC, yields on a string,
/// in epoch milliseconds.
pub uninterp spec fn space_datetime_utc_ms(s: Seq<char>) -> Option<i64>;

/// Whether an epoch-second count lies within the calendar's representable
/// range.
pub uninterp spec fn epoch_seconds_in_range(n: i64) -> bool;

/// The epoch milliseconds of an epoch-second count, if representable.
pub open spec fn spec_epoch_ms(n: i64) -> Option<i64> {
    if epoch_seconds_in_range(n) {
        Some((n * 1000) as i64)
    } else {
        None
    }
}

/// Relies on chrono's `FromStr for DateTime<Utc>` (relaxed RFC 3339) and
/// `DateTime::timestamp_millis`: the parse is a function of the string
/// alone and never panics.
#[verifier::external_body]
pub(crate) fn parse_rfc3339_utc_ms(s: &str) -> (r: Option<i64>)
    ensures
        r == rfc3339_utc_ms(s@),
{
    match s.parse::<chrono::DateTime<chrono::Utc>>() {
        Ok(dt) => Some(dt.timestamp_millis()),
        Err(_) => None,
    }
}

/// Relies on chrono's `NaiveDateTime::parse_from_str` with the
/// `"%Y-%m-%d %H:%M:%S"` pattern and `NaiveDateTime::and_utc`: the parse
/// is a function of the string alone and never panics.
#[verifier::external_body]
pub(crate) fn parse_space_datetime_utc_ms(s: &str) -> (r: Option<i64>)
    ensures
        r == space_datetime_utc_ms(s@),
{
    match chrono::NaiveDateTime::parse_from_str(s, "%Y-%m-%d %H:%M:%S") {
        Ok(dt) => Some(dt.and_utc().timestamp_millis()),
        Err(_) => None,
    }
}

/// Relies on chrono's `TimeZone::timestamp_opt` on `Utc`: an in-range
/// epoch-second count yields the datetime with exactly that timestamp
/// (single, since UTC has no fold), and an out-of-range one yields
/// nothing.
#[verifier::external_body]
pub(crate) fn epoch_seconds_to_utc_ms(n: i64) -> (r: Option<i64>)
    ensures
        r == spec_epoch_ms(n),
        r is Some <==> epoch_seconds_in_range(n),
{
    chrono::Utc.timestamp_opt(n, 0).single().map(|dt| dt.timestamp_millis())
}

} // verus!
