//! Calendar and Unix time, through `chrono`.

use vstd::prelude::*;
use chrono::{DateTime, TimeZone, Utc};

verus! {

/// Whether `year` is a leap year of the proleptic Gregorian calendar.
pub open spec fn is_leap_year(year: int) -> bool {
    (year % 4 == 0 && year % 100 != 0) || year % 400 == 0
}

/// The number of days of `month` (1 to 12) in `year`.
pub open spec fn days_in_month(year: int, month: int) -> int {
    if month == 2 {
        if is_leap_year(year) {
            29
        } else {
            28
        }
    } else if month == 4 || month == 6 || month == 9 || month == 11 {
        30
    } else {
        31
    }
}

/// Whether `year`-`month`-`day` is a day of the proleptic Gregorian calendar.
pub open spec fn is_calendar_date(year: int, month: int, day: int) -> bool {
    1 <= month <= 12 && 1 <= day <= days_in_month(year, month)
}

/// The number of days from 1970-01-01 to `year`-`month`-`day` of the proleptic Gregorian
/// calendar (negative before it): the days of the whole 400-year eras since year 0 (each
/// 146097 days), then of the years, leap days and months of the era, with years taken to start
/// in March.
pub open spec fn days_from_civil(year: int, month: int, day: int) -> int {
    let y = if month <= 2 {
        year - 1
    } else {
        year
    };
    let era = y / 400;
    let yoe = y - era * 400;
    let mp = if month > 2 {
        month - 3
    } else {
        month + 9
    };
    let doy = (153 * mp + 2) / 5 + day - 1;
    let doe = yoe * 365 + yoe / 4 - yoe / 100 + doy;
    era * 146097 + doe - 719468
}

/// The Unix time, in seconds, of midnight UTC at the start of the day `year`-`month`-`day`.
pub open spec fn utc_midnight_seconds(year: int, month: int, day: int) -> int {
    86400 * days_from_civil(year, month, day)
}

/// `Utc.with_ymd_and_hms(year, month, day, 0, 0, 0).single()`, as Unix time in seconds
/// (`DateTime::timestamp`). `chrono` documents that the date exists exactly when it is a day
/// of the proleptic Gregorian calendar (a year that fits in `u16` is always in its range), and
/// that Unix time counts the seconds since 1970-01-01 00:00:00 UTC, leap seconds left out.
#[verifier::external_body]
pub(crate) fn utc_midnight(year: u16, month: u8, day: u8) -> (r: Option<i64>)
    ensures
        r is Some <==> is_calendar_date(year as int, month as int, day as int),
        r matches Some(t) ==> t == utc_midnight_seconds(year as int, month as int, day as int),
{
    Utc.with_ymd_and_hms(year as i32, month as u32, day as u32, 0, 0, 0).single().map(|d| d.timestamp())
}

/// `DateTime::from_timestamp(secs, 0)`, as Unix time in seconds again. `chrono` documents that
/// the result round-trips through `DateTime::timestamp`, and is `None` only for a number of
/// seconds more than about 262,000 years from the common era; every `u32` is in range.
#[verifier::external_body]
pub(crate) fn utc_from_timestamp(secs: i64) -> (r: Option<i64>)
    ensures
        r matches Some(t) ==> t == secs,
        0 <= secs <= u32::MAX ==> r == Some(secs),
{
    DateTime::from_timestamp(secs, 0).map(|d| d.timestamp())
}

} // verus!
