//! Calendar dates as plain values, with the month arithmetic that the ticket
//! rules need. Dates are built and stepped by `chrono`.

use chrono::{Datelike, Days, NaiveDate};
use vstd::prelude::*;

verus! {

/// Smallest year that `chrono::NaiveDate` represents.
pub const MIN_YEAR: i32 = -262143;

/// Largest year that `chrono::NaiveDate` represents.
pub const MAX_YEAR: i32 = 262142;

/// A proleptic Gregorian calendar date (year, month 1-12, day 1-31).
#[derive(Clone, Copy, Debug, PartialEq, Eq, Structural)]
pub struct Date {
    pub year: i32,
    pub month: u32,
    pub day: u32,
}

pub open spec fn is_leap_year(year: int) -> bool {
    (year % 4 == 0 && year % 100 != 0) || year % 400 == 0
}

pub open spec fn days_in_month(year: int, month: int) -> int {
    if month == 2 {
        if is_leap_year(year) { 29 } else { 28 }
    } else if month == 4 || month == 6 || month == 9 || month == 11 {
        30
    } else {
        31
    }
}

/// The calendar date exists and lies in the range that `chrono` represents.
pub open spec fn ymd_valid(year: int, month: int, day: int) -> bool {
    &&& MIN_YEAR <= year <= MAX_YEAR
    &&& 1 <= month <= 12
    &&& 1 <= day <= days_in_month(year, month)
}

impl Date {
    pub open spec fn valid(self) -> bool {
        ymd_valid(self.year as int, self.month as int, self.day as int)
    }

    /// `self` comes strictly before `other` on the calendar.
    pub open spec fn before(self, other: Date) -> bool {
        ||| self.year < other.year
        ||| self.year == other.year && self.month < other.month
        ||| self.year == other.year && self.month == other.month && self.day < other.day
    }

    pub open spec fn not_after(self, other: Date) -> bool {
        !other.before(self)
    }

    /// Whether `self` comes strictly before `other` on the calendar.
    pub fn is_before(&self, other: &Date) -> (res: bool)
        ensures
            res == self.before(*other),
    {
        if self.year != other.year {
            self.year < other.year
        } else if self.month != other.month {
            self.month < other.month
        } else {
            self.day < other.day
        }
    }
}

/// The first date that `chrono` represents.
pub open spec fn first_representable_date() -> Date {
    Date { year: MIN_YEAR, month: 1, day: 1 }
}

/// The calendar day before `date`.
pub open spec fn previous_day(date: Date) -> Date {
    if date.day > 1 {
        Date { year: date.year, month: date.month, day: (date.day - 1) as u32 }
    } else if date.month > 1 {
        Date {
            year: date.year,
            month: (date.month - 1) as u32,
            day: days_in_month(date.year as int, date.month - 1) as u32,
        }
    } else {
        Date { year: (date.year - 1) as i32, month: 12, day: 31 }
    }
}

pub open spec fn first_day_of_month(date: Date) -> Date {
    Date { year: date.year, month: date.month, day: 1 }
}

pub open spec fn last_day_of_month(date: Date) -> Date {
    Date {
        year: date.year,
        month: date.month,
        day: days_in_month(date.year as int, date.month as int) as u32,
    }
}

/// Builds a date with `chrono::NaiveDate::from_ymd_opt`, which returns `None`
/// exactly when the calendar day does not exist or its year lies outside
/// `MIN_YEAR..=MAX_YEAR`.
#[verifier::external_body]
fn chrono_from_ymd(year: i32, month: u32, day: u32) -> (res: Option<Date>)
    ensures
        res is Some <==> ymd_valid(year as int, month as int, day as int),
        res matches Some(d) ==> d == (Date { year, month, day }),
{
    let d = NaiveDate::from_ymd_opt(year, month, day)?;
    Some(Date { year: d.year(), month: d.month(), day: d.day() })
}

/// Steps back one day with `chrono::NaiveDate::pred_opt`, which returns `None`
/// only for the first representable date and otherwise the previous calendar day.
#[verifier::external_body]
fn chrono_pred(date: Date) -> (res: Option<Date>)
    requires
        date.valid(),
    ensures
        res is Some <==> date != first_representable_date(),
        res matches Some(p) ==> p == previous_day(date),
{
    let d = NaiveDate::from_ymd_opt(date.year, date.month, date.day)?;
    let p = d.pred_opt()?;
    Some(Date { year: p.year(), month: p.month(), day: p.day() })
}
/// The last date that the calendar can represent.
pub open spec fn last_representable_date() -> Date {
    Date { year: MAX_YEAR, month: 12, day: 31 }
}

/// The number of days from 1970-01-01 to `d` in the proleptic Gregorian
/// calendar (negative before it).
pub open spec fn day_number(d: Date) -> int {
    let y: int = if d.month <= 2 { d.year - 1 } else { d.year as int };
    let era: int = y / 400;
    let year_of_era: int = y - era * 400;
    let shifted_month: int = if d.month > 2 { d.month - 3 } else { d.month + 9 };
    let day_of_year: int = (153 * shifted_month + 2) / 5 + d.day - 1;
    let day_of_era: int = year_of_era * 365 + year_of_era / 4 - year_of_era / 100 + day_of_year;
    era * 146097 + day_of_era - 719468
}

/// A day number that a representable date has.
pub open spec fn representable_day(n: int) -> bool {
    day_number(first_representable_date()) <= n <= day_number(last_representable_date())
}

/// The date `days` days after `date`, through `NaiveDate::checked_add_days`;
/// `None` exactly when that date is outside the representable range.
#[verifier::external_body]
fn chrono_add_days(date: Date, days: u64) -> (res: Option<Date>)
    requires
        date.valid(),
    ensures
        res is Some <==> representable_day(day_number(date) + days),
        res matches Some(d) ==> d.valid() && day_number(d) == day_number(date) + days,
{
    let d = NaiveDate::from_ymd_opt(date.year, date.month, date.day)?;
    let r = d.checked_add_days(Days::new(days))?;
    Some(Date { year: r.year(), month: r.month(), day: r.day() })
}

/// The date `days` days before `date`, through `NaiveDate::checked_sub_days`;
/// `None` exactly when that date is outside the representable range.
#[verifier::external_body]
fn chrono_sub_days(date: Date, days: u64) -> (res: Option<Date>)
    requires
        date.valid(),
    ensures
        res is Some <==> representable_day(day_number(date) - days),
        res matches Some(d) ==> d.valid() && day_number(d) == day_number(date) - days,
{
    let d = NaiveDate::from_ymd_opt(date.year, date.month, date.day)?;
    let r = d.checked_sub_days(Days::new(days))?;
    Some(Date { year: r.year(), month: r.month(), day: r.day() })
}

/// The date `n_days_ago` days before `today` (after it, for a negative
/// count): earlier dates are counted back, others forward.
pub fn days_ago(today: Date, n_days_ago: i64) -> (res: Date)
    requires
        today.valid(),
        representable_day(day_number(today) - n_days_ago),
    ensures
        res.valid(),
        day_number(res) == day_number(today) - n_days_ago,
{
    if n_days_ago > 0 {
        let days: u64 = n_days_ago as u64;
        chrono_sub_days(today, days).unwrap()
    } else {
        let days: u64 = (0i128 - n_days_ago as i128) as u64;
        chrono_add_days(today, days).unwrap()
    }
}



/// Builds a date from year, month and day; `None` when the day does not exist.
pub fn date_from_ymd(year: i32, month: u32, day: u32) -> (res: Option<Date>)
    ensures
        res is Some <==> ymd_valid(year as int, month as int, day as int),
        res matches Some(d) ==> d == (Date { year, month, day }),
{
    chrono_from_ymd(year, month, day)
}

/// The first and the last day of the month of `date`.
///
/// The last day is found as the day before the first day of the next month;
/// for December that first day is January 1 of the next year, which is built
/// eagerly for every date, so the year must not be the last representable one.
pub fn month_range(date: Date) -> (res: Result<(Date, Date), String>)
    requires
        date.valid(),
        date.year < MAX_YEAR,
    ensures
        res == Ok::<(Date, Date), String>((first_day_of_month(date), last_day_of_month(date))),
{
    let month0 = date.month - 1;
    let start_of_month = match chrono_from_ymd(date.year, month0 + 1, 1) {
        Some(d) => d,
        None => return Err(String::from_str("start_of_month calculation failed")),
    };
    let first_of_next_year = chrono_from_ymd(date.year + 1, 1, 1).unwrap();
    let first_of_next_month = match chrono_from_ymd(date.year, month0 + 2, 1) {
        Some(d) => d,
        None => first_of_next_year,
    };
    let end_of_month = match chrono_pred(first_of_next_month) {
        Some(d) => d,
        None => return Err(String::from_str("end_of_month calculation failed")),
    };
    Ok((start_of_month, end_of_month))
}

} // verus!
