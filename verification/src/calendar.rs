//! Calendar text for a timestamp, in UTC.

use vstd::prelude::*;

verus! {

/// The calendar day of a timestamp in UTC: the day of the month padded with a
/// space to two places, the month's three-letter English abbreviation and the
/// year, joined by hyphens, as in " 8-Oct-2020".
pub uninterp spec fn utc_day_label(timestamp: i32) -> Seq<char>;

/// The time of day of a timestamp in UTC, as in "04:25:40": hours of a 24-hour
/// clock, minutes and seconds, two digits each.
pub uninterp spec fn utc_clock_label(timestamp: i32) -> Seq<char>;

/// Trusted: calls `chrono::DateTime::from_timestamp` and formats the result
/// with chrono's `%v`. Every 32-bit timestamp is within chrono's range, so the
/// empty fallback is never taken. The contract only names the result.
#[verifier::external_body]
pub(crate) fn day_label(timestamp: i32) -> (r: String)
    ensures
        r@ == utc_day_label(timestamp),
{
    chrono::DateTime::from_timestamp(i64::from(timestamp), 0)
        .map(|t| t.format("%v").to_string())
        .unwrap_or_default()
}

/// Trusted: calls `chrono::DateTime::from_timestamp` and formats the result
/// with chrono's `%T`. Every 32-bit timestamp is within chrono's range, so the
/// empty fallback is never taken. The contract only names the result.
#[verifier::external_body]
pub(crate) fn clock_label(timestamp: i32) -> (r: String)
    ensures
        r@ == utc_clock_label(timestamp),
{
    chrono::DateTime::from_timestamp(i64::from(timestamp), 0)
        .map(|t| t.format("%T").to_string())
        .unwrap_or_default()
}

} // verus!
