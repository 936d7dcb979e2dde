//! The wall clock and the calendar, both taken from `chrono`.

use vstd::prelude::*;

verus! {

/// Whether `chrono` can place the given number of seconds since the Unix
/// epoch in its calendar.
pub uninterp spec fn in_calendar_range(timestamp: int) -> bool;

/// Calls `chrono::Utc::now()` and `DateTime::timestamp` on what it returns:
/// the current time in whole seconds since the Unix epoch. Nothing is
/// claimed of the value, which differs from call to call.
#[verifier::external_body]
pub(crate) fn unix_now() -> i64 {
    chrono::Utc::now().timestamp()
}

/// Calls `chrono::TimeZone::timestamp_opt` on `chrono::Utc`, and for a time
/// that it can place, `DateTime::with_timezone` with `chrono::Local` and
/// `DateTime::to_rfc3339`. The result is `Some` exactly for the timestamps
/// that `chrono` can place. Nothing is claimed of the text, which depends on
/// the time zone of the machine.
#[verifier::external_body]
pub(crate) fn local_rfc3339(timestamp: i64) -> (r: Option<String>)
    ensures
        r is Some <==> in_calendar_range(timestamp as int),
{
    match chrono::TimeZone::timestamp_opt(&chrono::Utc, timestamp, 0) {
        chrono::LocalResult::Single(utc) => Some(utc.with_timezone(&chrono::Local).to_rfc3339()),
        chrono::LocalResult::Ambiguous(_, _) => None,
        chrono::LocalResult::None => None,
    }
}

/// The number of seconds from the Unix epoch to nine o'clock, universal
/// time, on the given day, as `chrono` computes it; `None` where the
/// calendar has no such day.
pub uninterp spec fn morning_of(year: int, month: int, day: int) -> Option<int>;

/// Calls `chrono::TimeZone::with_ymd_and_hms` on `chrono::Utc` for nine
/// o'clock on the given day, and `DateTime::timestamp` on the time that it
/// returns. The result depends on the day alone, and is `None` where
/// `chrono` returns no single time.
#[verifier::external_body]
pub(crate) fn morning_timestamp(year: i32, month: u32, day: u32) -> (r: Option<i64>)
    ensures
        match r {
            Some(t) => morning_of(year as int, month as int, day as int) == Some(t as int),
            None => morning_of(year as int, month as int, day as int) is None,
        },
{
    match chrono::TimeZone::with_ymd_and_hms(&chrono::Utc, year, month, day, 9, 0, 0) {
        chrono::LocalResult::Single(taken) => Some(taken.timestamp()),
        chrono::LocalResult::Ambiguous(_, _) => None,
        chrono::LocalResult::None => None,
    }
}

} // verus!
