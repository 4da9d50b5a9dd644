use chrono::Datelike;
use vstd::prelude::*;

verus! {

/// Smallest year that a calendar date may carry.
pub const MIN_YEAR: i32 = -262143;

/// Largest year that a calendar date may carry.
pub const MAX_YEAR: i32 = 262142;

/// Leap years of the proleptic Gregorian calendar.
pub open spec fn is_leap(y: int) -> bool {
    y % 4 == 0 && (y % 100 != 0 || y % 400 == 0)
}

pub open spec fn days_in_month(y: int, m: int) -> int {
    if m == 2 {
        if is_leap(y) { 29 } else { 28 }
    } else if m == 4 || m == 6 || m == 9 || m == 11 {
        30
    } else {
        31
    }
}

/// A year, month and day that name a day of the calendar, within the
/// supported range of years.
pub open spec fn valid_ymd(y: int, m: int, d: int) -> bool {
    MIN_YEAR <= y <= MAX_YEAR && 1 <= m <= 12 && 1 <= d <= days_in_month(y, m)
}

/// Days of the year that come before the first of month `m`.
pub open spec fn days_before_month(y: int, m: int) -> int {
    let common: int = if m == 1 { 0 }
        else if m == 2 { 31 }
        else if m == 3 { 59 }
        else if m == 4 { 90 }
        else if m == 5 { 120 }
        else if m == 6 { 151 }
        else if m == 7 { 181 }
        else if m == 8 { 212 }
        else if m == 9 { 243 }
        else if m == 10 { 273 }
        else if m == 11 { 304 }
        else { 334 };
    if m > 2 && is_leap(y) { common + 1 } else { common }
}

/// Day count of the proleptic Gregorian calendar: 0001-01-01 is day 1,
/// and consecutive days have consecutive numbers.
pub open spec fn day_number(y: int, m: int, d: int) -> int {
    365 * (y - 1) + (y - 1) / 4 - (y - 1) / 100 + (y - 1) / 400 + days_before_month(y, m) + d
}

/// Relies on chrono's `NaiveDate::from_ymd_opt`, which accepts exactly the
/// valid dates of its year range, and on `Datelike::num_days_from_ce`, which
/// counts days with January 1 of year 1 as day 1.
#[verifier::external_body]
fn chrono_day_number(year: i32, month: u32, day: u32) -> (r: Option<i32>)
    ensures
        r == (if valid_ymd(year as int, month as int, day as int) {
            Some(day_number(year as int, month as int, day as int) as i32)
        } else {
            None::<i32>
        }),
{
    match chrono::NaiveDate::from_ymd_opt(year, month, day) {
        Some(date) => Some(date.num_days_from_ce()),
        None => None,
    }
}

/// A calendar date at a fixed offset from UTC, with its day count kept
/// beside it for comparisons.
#[derive(Clone, Copy, Debug, PartialEq, Eq, Structural)]
pub struct CalDate {
    pub year: i32,
    pub month: u32,
    pub day: u32,
    /// Seconds east of UTC.
    pub offset_secs: i32,
    /// `day_number` of the year, month and day.
    pub days: i32,
}

impl CalDate {
    pub open spec fn wf(&self) -> bool {
        &&& valid_ymd(self.year as int, self.month as int, self.day as int)
        &&& self.days as int == day_number(self.year as int, self.month as int, self.day as int)
    }

    /// The date `year-month-day` at the given offset, if it exists.
    pub fn new(year: i32, month: u32, day: u32, offset_secs: i32) -> (r: Option<CalDate>)
        ensures
            r is Some <==> valid_ymd(year as int, month as int, day as int),
            r matches Some(d) ==> d.wf() && d.year == year && d.month == month && d.day == day
                && d.offset_secs == offset_secs,
    {
        match chrono_day_number(year, month, day) {
            Some(days) => Some(CalDate { year, month, day, offset_secs, days }),
            None => None,
        }
    }
}

} // verus!
