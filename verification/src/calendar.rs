use vstd::prelude::*;
use chrono::Datelike;

verus! {

/// The first year that a calendar date can have.
pub const MIN_YEAR: i32 = -262143;

/// The last year that a calendar date can have.
pub const MAX_YEAR: i32 = 262142;

/// The day number of January 1 of [`MIN_YEAR`].
pub const MIN_DAY_NUMBER: i32 = -95746129;

/// The day number of December 31 of [`MAX_YEAR`].
pub const MAX_DAY_NUMBER: i32 = 95745399;

/// Leap years of the proleptic Gregorian calendar.
pub open spec fn is_leap_year(year: int) -> bool {
    year % 4 == 0 && (year % 100 != 0 || year % 400 == 0)
}

/// The number of days in a month of a year.
pub open spec fn days_in_month(year: int, month: int) -> int {
    if month == 2 {
        if is_leap_year(year) { 29 } else { 28 }
    } else if month == 4 || month == 6 || month == 9 || month == 11 {
        30
    } else {
        31
    }
}

/// A calendar date that exists, in the range of years that dates can have.
pub open spec fn is_valid_date(year: int, month: int, day: int) -> bool {
    &&& MIN_YEAR <= year <= MAX_YEAR
    &&& 1 <= month <= 12
    &&& 1 <= day <= days_in_month(year, month)
}

/// Days are numbered consecutively, January 1 of year 1 being day 1.
pub open spec fn day_number_in_range(n: int) -> bool {
    MIN_DAY_NUMBER <= n <= MAX_DAY_NUMBER
}

/// The day of the week of a day number, counted from Monday = 0 to Sunday = 6.
/// January 1 of year 1 (day 1) was a Monday.
pub open spec fn weekday_of(n: int) -> int {
    (n - 1) % 7
}

/// The day number of a valid calendar date, as chrono counts it.
pub uninterp spec fn calendar_day_number(year: i32, month: u32, day: u32) -> i32;

/// Calls `chrono::NaiveDate::from_ymd_opt`, then `Datelike::num_days_from_ce` on the date.
/// Trusted: chrono makes a date exactly for an existing proleptic Gregorian date whose
/// year lies in its range, and a made date has a day number in range. The day number
/// itself is named, not stated.
#[verifier::external_body]
fn date_day_number(year: i32, month: u32, day: u32) -> (r: Option<i32>)
    ensures
        r is Some <==> is_valid_date(year as int, month as int, day as int),
        r matches Some(n) ==> n == calendar_day_number(year, month, day) && day_number_in_range(n as int),
{
    match chrono::NaiveDate::from_ymd_opt(year, month, day) {
        Some(date) => Some(date.num_days_from_ce()),
        None => None,
    }
}

/// Calls `chrono::NaiveDate::from_num_days_from_ce_opt`, then `weekday().num_days_from_monday()`.
/// Trusted: chrono makes a date exactly for a day number in its range, and the weekday of
/// day number `n` counted from Monday is `(n - 1) mod 7`.
#[verifier::external_body]
fn day_number_weekday(n: i32) -> (r: Option<u32>)
    ensures
        r is Some <==> day_number_in_range(n as int),
        r matches Some(w) ==> w as int == weekday_of(n as int),
{
    match chrono::NaiveDate::from_num_days_from_ce_opt(n) {
        Some(date) => Some(date.weekday().num_days_from_monday()),
        None => None,
    }
}

/// The day number of a calendar date, or `None` where no such date exists.
pub fn day_number(year: i32, month: u32, day: u32) -> (r: Option<i32>)
    ensures
        r is Some <==> is_valid_date(year as int, month as int, day as int),
        r matches Some(n) ==> n == calendar_day_number(year, month, day) && day_number_in_range(n as int),
{
    date_day_number(year, month, day)
}

/// The index of the day of the week of a day, Monday being 0 and Sunday 6.
pub fn weekday_index(date: i32) -> (w: usize)
    requires
        day_number_in_range(date as int),
    ensures
        w as int == weekday_of(date as int),
        w < 7,
{
    match day_number_weekday(date) {
        Some(w) => w as usize,
        None => 0,
    }
}

/// Whether a day number is a day that the calendar has.
pub fn in_calendar_range(n: i32) -> (b: bool)
    ensures
        b == day_number_in_range(n as int),
{
    MIN_DAY_NUMBER <= n && n <= MAX_DAY_NUMBER
}

/// The days of the week come round every seven days, and an index lies in `0..7`.
pub proof fn lemma_weekday_period(n: int)
    ensures
        weekday_of(n + 7) == weekday_of(n),
        0 <= weekday_of(n) < 7,
{
}

} // verus!
