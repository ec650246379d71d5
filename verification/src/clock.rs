//! The wall clock and the trailing window of days that the counts look at.

use vstd::prelude::*;

verus! {

/// The number of days a window covers where the caller names none.
pub const DEFAULT_DAYS: i32 = 30;

/// Seconds in a day.
pub const SECONDS_PER_DAY: i64 = 86400;

/// The days a window covers.
pub open spec fn window_days(days: Option<i32>) -> int {
    match days {
        Some(d) => d as int,
        None => 30,
    }
}

/// `v` held to the range of a 64-bit signed integer.
pub open spec fn saturated(v: int) -> int {
    if v < i64::MIN {
        i64::MIN as int
    } else if v > i64::MAX {
        i64::MAX as int
    } else {
        v
    }
}

/// The timestamp that rows must exceed to fall in the window that ends at
/// `now`: `now - days * 86400`, held to the 64-bit range.
pub open spec fn window_cutoff(now: int, days: Option<i32>) -> int {
    saturated(now - window_days(days) * 86400)
}

/// Trusted: reads the system clock with `std::time::SystemTime::now` and
/// measures it against `UNIX_EPOCH` in whole seconds, taking a clock set before
/// the epoch as zero. Nothing is claimed of the value.
#[verifier::external_body]
fn clock_seconds() -> u64 {
    std::time::SystemTime::now().duration_since(std::time::UNIX_EPOCH).unwrap_or_default().as_secs()
}

/// A count of seconds since the epoch as a timestamp: the count itself, or
/// the largest timestamp where the count is beyond it.
pub open spec fn seconds_as_timestamp(secs: u64) -> int {
    if secs > i64::MAX {
        i64::MAX as int
    } else {
        secs as int
    }
}

/// Turns a count of seconds since the epoch into a timestamp.
pub fn timestamp_of(secs: u64) -> (r: i64)
    ensures
        r == seconds_as_timestamp(secs),
{
    if secs > i64::MAX as u64 {
        i64::MAX
    } else {
        secs as i64
    }
}

/// The number of seconds since the UNIX epoch: the timestamp of whatever the
/// system clock reads, so never negative.
pub fn unix_time() -> (r: i64)
    ensures
        r >= 0,
{
    timestamp_of(clock_seconds())
}

/// Computes the lower bound, itself excluded, of the window of `days` days
/// (30 where none are given) that ends at `now`.
pub fn window_start(now: i64, days: Option<i32>) -> (r: i64)
    ensures
        r as int == window_cutoff(now as int, days),
{
    let d: i64 = match days {
        Some(d) => d as i64,
        None => DEFAULT_DAYS as i64,
    };
    let span: i64 = d * SECONDS_PER_DAY;
    if span >= 0 {
        if now < i64::MIN + span {
            i64::MIN
        } else {
            now - span
        }
    } else {
        if now > i64::MAX + span {
            i64::MAX
        } else {
            now - span
        }
    }
}

/// Within a non-negative window the bound is exactly `now - days * 86400` for
/// every clock reading that is not before the epoch.
pub proof fn lemma_window_exact(now: i64, days: Option<i32>)
    requires
        now >= 0,
        window_days(days) >= 0,
    ensures
        window_cutoff(now as int, days) == now - window_days(days) * 86400,
{
}

} // verus!
