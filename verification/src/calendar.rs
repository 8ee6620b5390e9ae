//! Calendar arithmetic on points in time, given in whole seconds since the
//! Unix epoch and read in UTC: the same day and time one month earlier.
use vstd::prelude::*;
use vstd::string::*;

use crate::error::Error;

verus! {

/// The month, from 1 to 12, in which the point in time falls; `None` for a
/// point in time beyond the dates that can be written.
pub uninterp spec fn utc_month_of(t: i64) -> Option<u32>;

/// The year in which the point in time falls; `None` for a point in time
/// beyond the dates that can be written.
pub uninterp spec fn utc_year_of(t: i64) -> Option<i32>;

/// The point in time with its month changed to `month` and all else kept;
/// `None` where there is no such date.
pub uninterp spec fn utc_with_month_of(t: i64, month: u32) -> Option<i64>;

/// The point in time with its year changed to `year` and all else kept;
/// `None` where there is no such date.
pub uninterp spec fn utc_with_year_of(t: i64, year: i32) -> Option<i64>;

/// Calls `chrono::DateTime::from_timestamp` and, on the date it gives,
/// `Datelike::month`: the month number, counted from 1. `None` where chrono
/// has no date for the point in time.
#[verifier::external_body]
pub(crate) fn utcMonth(t: i64) -> (r: Option<u32>)
    ensures
        r == utc_month_of(t),
{
    match chrono::DateTime::from_timestamp(t, 0) {
        Some(date) => Some(chrono::Datelike::month(&date)),
        None => None,
    }
}

/// Calls `chrono::DateTime::from_timestamp` and, on the date it gives,
/// `Datelike::year`. `None` where chrono has no date for the point in time.
#[verifier::external_body]
pub(crate) fn utcYear(t: i64) -> (r: Option<i32>)
    ensures
        r == utc_year_of(t),
{
    match chrono::DateTime::from_timestamp(t, 0) {
        Some(date) => Some(chrono::Datelike::year(&date)),
        None => None,
    }
}

/// Calls `chrono::DateTime::from_timestamp` and, on the date it gives,
/// `Datelike::with_month`, and reads the result back with
/// `DateTime::timestamp`. `None` where chrono has no date for the point in
/// time, or none with that month, as for the 31st in a month of 30 days.
#[verifier::external_body]
pub(crate) fn utcWithMonth(t: i64, month: u32) -> (r: Option<i64>)
    ensures
        r == utc_with_month_of(t, month),
{
    match chrono::DateTime::from_timestamp(t, 0) {
        Some(date) => match chrono::Datelike::with_month(&date, month) {
            Some(moved) => Some(moved.timestamp()),
            None => None,
        },
        None => None,
    }
}

/// Calls `chrono::DateTime::from_timestamp` and, on the date it gives,
/// `Datelike::with_year`, and reads the result back with
/// `DateTime::timestamp`. `None` where chrono has no date for the point in
/// time, or none in that year, as for the 29th of February.
#[verifier::external_body]
pub(crate) fn utcWithYear(t: i64, year: i32) -> (r: Option<i64>)
    ensures
        r == utc_with_year_of(t, year),
{
    match chrono::DateTime::from_timestamp(t, 0) {
        Some(date) => match chrono::Datelike::with_year(&date, year) {
            Some(moved) => Some(moved.timestamp()),
            None => None,
        },
        None => None,
    }
}

/// The year and month one month before the given month of the given year;
/// `None` where the year before does not fit in 32 bits.
pub open spec fn month_before(year: i32, month: u32) -> Option<(i32, u32)> {
    if month > 1 {
        Some((year, (month - 1) as u32))
    } else if year > i32::MIN {
        Some(((year - 1) as i32, 12u32))
    } else {
        None
    }
}

/// The year and month one month before the given month of the given year.
pub fn monthBefore(year: i32, month: u32) -> (r: Option<(i32, u32)>)
    ensures
        r == month_before(year, month),
{
    if month > 1 {
        Some((year, month - 1))
    } else if year > i32::MIN {
        Some((year - 1, 12))
    } else {
        None
    }
}

/// The point in time one month before `t`: the same day and time in the
/// month before, which in January is December of the year before. `None`
/// where that month has no such day.
pub open spec fn last_month_of(t: i64) -> Option<i64> {
    match (utc_month_of(t), utc_year_of(t)) {
        (Some(month), Some(year)) => match month_before(year, month) {
            Some((y, m)) => if month > 1 {
                utc_with_month_of(t, m)
            } else {
                match utc_with_year_of(t, y) {
                    Some(moved) => utc_with_month_of(moved, m),
                    None => None,
                }
            },
            None => None,
        },
        _ => None,
    }
}

/// What asking for the month before answers.
pub open spec fn last_month_answer(t: i64, r: Result<i64, Error>) -> bool {
    match last_month_of(t) {
        Some(moved) => r == Ok::<i64, Error>(moved),
        None => r matches Err(e) && e is RuntimeError && e.message()
            == "Failed to get last month"@,
    }
}

/// The point in time one month before `from_time`.
pub fn lastMonth(from_time: i64) -> (r: Result<i64, Error>)
    ensures
        last_month_answer(from_time, r),
{
    let moved = match (utcMonth(from_time), utcYear(from_time)) {
        (Some(month), Some(year)) => match monthBefore(year, month) {
            Some((y, m)) => if month > 1 {
                utcWithMonth(from_time, m)
            } else {
                match utcWithYear(from_time, y) {
                    Some(moved) => utcWithMonth(moved, m),
                    None => None,
                }
            },
            None => None,
        },
        _ => None,
    };
    match moved {
        Some(t) => Ok(t),
        None => Err(Error::RuntimeError(String::from_str("Failed to get last month"))),
    }
}

/// The number of seconds from one month before `now` up to `now`: the
/// period of the monthly boards.
pub fn sinceLastMonth(now: i64) -> (r: Result<i64, Error>)
    ensures
        match last_month_of(now) {
            Some(moved) => if i64::MIN <= now - moved <= i64::MAX {
                r == Ok::<i64, Error>((now - moved) as i64)
            } else {
                r matches Err(e) && e is RuntimeError && e.message()
                    == "Failed to get last month"@
            },
            None => r matches Err(e) && e is RuntimeError && e.message()
                == "Failed to get last month"@,
        },
{
    match lastMonth(now) {
        Ok(moved) => match now.checked_sub(moved) {
            Some(period) => Ok(period),
            None => Err(Error::RuntimeError(String::from_str("Failed to get last month"))),
        },
        Err(e) => Err(e),
    }
}

} // verus!
