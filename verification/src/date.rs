//! Whole-date resolution: a partial date becomes a calendar day only when
//! year, month and day are all present and name a day that exists.

use chrono::{Datelike, NaiveDate};
use vstd::prelude::*;

use crate::anilist::Date;

verus! {

/// The earliest year a calendar day can lie in.
pub const MIN_YEAR: i32 = -262143;

/// The latest year a calendar day can lie in.
pub const MAX_YEAR: i32 = 262142;

/// A day of the proleptic Gregorian calendar.
#[derive(Clone, Copy, Debug, PartialEq, Eq, Structural)]
pub struct Day {
    pub year: i32,
    pub month: u32,
    pub day: u32,
}

/// Leap years of the proleptic Gregorian calendar.
pub open spec fn is_leap_year(year: int) -> bool {
    year % 4 == 0 && (year % 100 != 0 || year % 400 == 0)
}

/// The number of days of a month, for `month` from 1 to 12.
pub open spec fn days_in_month(year: int, month: int) -> int {
    if month == 2 {
        if is_leap_year(year) {
            29
        } else {
            28
        }
    } else if month == 4 || month == 6 || month == 9 || month == 11 {
        30
    } else {
        31
    }
}

/// Year, month and day name a day that exists, in a year that can be held.
pub open spec fn is_calendar_day(year: int, month: int, day: int) -> bool {
    &&& MIN_YEAR <= year <= MAX_YEAR
    &&& 1 <= month <= 12
    &&& 1 <= day <= days_in_month(year, month)
}

/// What a partial date resolves to: its three parts where all are present
/// and name a calendar day, no date otherwise.
pub open spec fn whole_date(date: Date) -> Option<Day> {
    if date.year is Some && date.month is Some && date.day is Some && is_calendar_day(
        date.year->0 as int,
        date.month->0 as int,
        date.day->0 as int,
    ) {
        Some(Day { year: date.year->0, month: date.month->0 as u32, day: date.day->0 as u32 })
    } else {
        None
    }
}

impl Day {
    /// The day exists in the calendar.
    pub open spec fn is_valid(self) -> bool {
        is_calendar_day(self.year as int, self.month as int, self.day as int)
    }
}

/// A partial date resolves all or nothing: with any part missing it is no
/// date, and a date it resolves to holds its three parts and exists in the
/// calendar.
pub proof fn lemma_whole_date(date: Date)
    ensures
        date.year is None || date.month is None || date.day is None ==> whole_date(date) is None,
        whole_date(date) is Some ==> {
            &&& date.year == Some(whole_date(date)->0.year)
            &&& date.month->0 == whole_date(date)->0.month
            &&& date.day->0 == whole_date(date)->0.day
            &&& whole_date(date)->0.is_valid()
        },
{
}

/// Calls `chrono::NaiveDate::from_ymd_opt` and reads year, month and day
/// back from the date it made. The contract claims that chrono makes a date
/// exactly for the days of the proleptic Gregorian calendar in the years
/// from `MIN_YEAR` to `MAX_YEAR`, and that the date made holds the three
/// numbers it was made from.
#[verifier::external_body]
fn from_ymd_opt(year: i32, month: u32, day: u32) -> (res: Option<Day>)
    ensures
        res is Some <==> is_calendar_day(year as int, month as int, day as int),
        res is Some ==> res->0.year == year && res->0.month == month && res->0.day == day,
{
    match NaiveDate::from_ymd_opt(year, month, day) {
        Some(date) => Some(Day { year: date.year(), month: date.month(), day: date.day() }),
        None => None,
    }
}

/// Resolves a partial date to a calendar day, all or nothing.
pub fn construct_date(date: Date) -> (res: Option<Day>)
    ensures
        res == whole_date(date),
        res is Some ==> res->0.is_valid(),
{
    match date.year {
        Some(year) => match date.month {
            Some(month) => match date.day {
                Some(day) => {
                    if month < 0 || day < 0 {
                        None
                    } else {
                        from_ymd_opt(year, month as u32, day as u32)
                    }
                },
                None => None,
            },
            None => None,
        },
        None => None,
    }
}

} // verus!
