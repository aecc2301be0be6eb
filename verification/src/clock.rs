//! Calendar arithmetic on plain UTC timestamps.
//!
//! The simulator receives wall-clock time as a broken-down UTC instant and
//! derives the day of year, the decimal hour and the Unix timestamp from
//! it, so all time handling inside the library is exact integer calendar
//! arithmetic.

use vstd::prelude::*;

use crate::fp::ONE;
use crate::fp::fdivi_s;

verus! {

/// A broken-down UTC instant.
#[derive(Clone, Copy, Debug, PartialEq, Eq, Structural)]
pub struct UtcTime {
    pub year: u32,
    pub month: u32,
    pub day: u32,
    pub hour: u32,
    pub minute: u32,
    pub second: u32,
}

pub open spec fn is_leap_year_s(y: int) -> bool {
    y % 4 == 0 && (y % 100 != 0 || y % 400 == 0)
}

pub open spec fn days_in_month_s(y: int, m: int) -> int {
    if m == 2 {
        if is_leap_year_s(y) {
            29
        } else {
            28
        }
    } else if m == 4 || m == 6 || m == 9 || m == 11 {
        30
    } else {
        31
    }
}

/// A calendar instant the simulator accepts: any date between 1970 and
/// 9999 whose fields are within their calendar ranges.
pub open spec fn valid_time_s(t: UtcTime) -> bool {
    &&& 1970 <= t.year <= 9999
    &&& 1 <= t.month <= 12
    &&& 1 <= t.day <= days_in_month_s(t.year as int, t.month as int)
    &&& t.hour <= 23
    &&& t.minute <= 59
    &&& t.second <= 59
}

/// Days in the months strictly before m, ignoring leap years.
pub open spec fn month_offset_s(m: int) -> int {
    if m <= 1 {
        0
    } else if m == 2 {
        31
    } else if m == 3 {
        59
    } else if m == 4 {
        90
    } else if m == 5 {
        120
    } else if m == 6 {
        151
    } else if m == 7 {
        181
    } else if m == 8 {
        212
    } else if m == 9 {
        243
    } else if m == 10 {
        273
    } else if m == 11 {
        304
    } else {
        334
    }
}

/// Ordinal day of the year, 1 to 366.
pub open spec fn day_of_year_s(t: UtcTime) -> int {
    month_offset_s(t.month as int) + (if t.month > 2 && is_leap_year_s(t.year as int) {
        1int
    } else {
        0int
    }) + t.day as int
}

/// Leap years with year number at most y (for y >= 0).
pub open spec fn leap_count_s(y: int) -> int {
    y / 4 - y / 100 + y / 400
}

/// Whole days since 1970-01-01; dates are at or after the epoch, so the
/// count is kept non-negative.
pub open spec fn days_since_epoch_s(t: UtcTime) -> int {
    let d = 365 * (t.year as int - 1970) + leap_count_s(t.year as int - 1) - leap_count_s(1969)
        + day_of_year_s(t) - 1;
    if d < 0 {
        0
    } else {
        d
    }
}

/// Unix timestamp in seconds.
pub open spec fn unix_seconds_s(t: UtcTime) -> int {
    days_since_epoch_s(t) * 86400 + t.hour as int * 3600 + t.minute as int * 60 + t.second as int
}

/// Decimal UTC hour in micro-hours.
pub open spec fn micro_hour_s(t: UtcTime) -> int {
    t.hour as int * ONE as int + fdivi_s(t.minute as int * ONE as int, 60) + fdivi_s(
        t.second as int * ONE as int,
        3600,
    )
}

pub fn is_leap_year(y: u32) -> (r: bool)
    ensures
        r == is_leap_year_s(y as int),
{
    y % 4 == 0 && (y % 100 != 0 || y % 400 == 0)
}

/// Ordinal day of the year for a valid instant.
pub fn day_of_year(t: &UtcTime) -> (doy: u32)
    requires
        valid_time_s(*t),
    ensures
        doy == day_of_year_s(*t),
        1 <= doy <= 366,
{
    let base: u32 = if t.month <= 1 {
        0
    } else if t.month == 2 {
        31
    } else if t.month == 3 {
        59
    } else if t.month == 4 {
        90
    } else if t.month == 5 {
        120
    } else if t.month == 6 {
        151
    } else if t.month == 7 {
        181
    } else if t.month == 8 {
        212
    } else if t.month == 9 {
        243
    } else if t.month == 10 {
        273
    } else if t.month == 11 {
        304
    } else {
        334
    };
    let leap_add: u32 = if t.month > 2 && is_leap_year(t.year) {
        1
    } else {
        0
    };
    base + leap_add + t.day
}

/// Unix timestamp in seconds for a valid instant.
pub fn unix_seconds(t: &UtcTime) -> (s: i64)
    requires
        valid_time_s(*t),
    ensures
        s == unix_seconds_s(*t),
        0 <= s < 0x4000000000,
{
    let y: i64 = t.year as i64;
    let prev: u64 = (y - 1) as u64;
    let leaps: i64 = (prev / 4) as i64 - (prev / 100) as i64 + (prev / 400) as i64;
    let doy: i64 = day_of_year(t) as i64;
    proof {
        assert(leap_count_s(1969) == 477);
    }
    let raw: i64 = 365 * (y - 1970) + leaps - 477 + doy - 1;
    let days: i64 = if raw < 0 {
        0
    } else {
        raw
    };
    days * 86400 + t.hour as i64 * 3600 + t.minute as i64 * 60 + t.second as i64
}

/// Decimal UTC hour in micro-hours.
pub fn micro_hour(t: &UtcTime) -> (h: i64)
    requires
        valid_time_s(*t),
    ensures
        h == micro_hour_s(*t),
        0 <= h < 24 * ONE as int,
{
    let m: i64 = ((t.minute as u64) * 1_000_000 / 60) as i64;
    let s: i64 = ((t.second as u64) * 1_000_000 / 3600) as i64;
    (t.hour as i64) * ONE + m + s
}

} // verus!
