//! The moment at which a request arrives, in seconds since the epoch.

use crate::service::{in_reach, SESSION_LIFETIME};
use vstd::prelude::*;

verus! {

/// Whether `seconds` is a moment that chrono can tell. Chrono counts the days
/// in an `i32`, the first of January 1970 being day 719163, and the seconds
/// of a day in a `u32`; its timestamp is the days since the epoch times
/// 86400, and the seconds of the day added.
pub open spec fn on_calendar(seconds: i64) -> bool {
    (i32::MIN - 719_163) * 86_400 <= seconds <= (i32::MAX - 719_163) * 86_400 + u32::MAX
}

/// `seconds`, if a request can arrive then.
pub fn moment(seconds: i64) -> (now: Option<i64>)
    ensures
        now == if in_reach(seconds) {
            Some(seconds)
        } else {
            None
        },
{
    if seconds <= i64::MAX - SESSION_LIFETIME {
        Some(seconds)
    } else {
        None
    }
}

/// The present moment by the system clock. It is always in reach: the
/// calendar of the clock ends long before an `i64` does.
pub fn now() -> (now: Option<i64>)
    ensures
        now matches Some(seconds) && on_calendar(seconds) && in_reach(seconds),
{
    let seconds: i64 = utc_timestamp();
    assert(in_reach(seconds)) by {
        calendar_is_in_reach(seconds);
    }
    moment(seconds)
}

/// Every moment on chrono's calendar is in reach.
pub proof fn calendar_is_in_reach(seconds: i64)
    requires
        on_calendar(seconds),
    ensures
        in_reach(seconds),
{
}

/// `chrono::Utc::now().timestamp()`: the seconds since the epoch by the
/// system clock. Which moment it is, nothing tells; it is one on chrono's
/// calendar, since `timestamp` computes it from a day and a second of the
/// day that chrono holds. `Utc::now` panics where the clock stands before
/// the epoch, or beyond the calendar.
#[verifier::external_body]
fn utc_timestamp() -> (seconds: i64)
    ensures
        on_calendar(seconds),
{
    chrono::Utc::now().timestamp()
}

} // verus!
