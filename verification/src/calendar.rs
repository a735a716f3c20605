//! Calendar dates and timestamps as `chrono`'s `NaiveDate` and
//! `NaiveDateTime` hold them, with the date formats the application reads
//! and writes.

use vstd::prelude::*;

use crate::text::zero_padded;

verus! {

/// The earliest year a `NaiveDate` can hold.
pub const MIN_YEAR: i32 = -262143;

/// The latest year a `NaiveDate` can hold.
pub const MAX_YEAR: i32 = 262142;

/// Leap year in the proleptic Gregorian calendar.
pub open spec fn is_leap(y: int) -> bool {
    (y % 4 == 0 && y % 100 != 0) || y % 400 == 0
}

pub open spec fn days_in_month(y: int, m: int) -> int {
    if m == 2 {
        if is_leap(y) {
            29
        } else {
            28
        }
    } else if m == 4 || m == 6 || m == 9 || m == 11 {
        30
    } else {
        31
    }
}

/// `NaiveDate::from_ymd_opt(y, m, d)` returns `Some`.
pub open spec fn valid_ymd(y: int, m: int, d: int) -> bool {
    &&& MIN_YEAR <= y <= MAX_YEAR
    &&& 1 <= m <= 12
    &&& 1 <= d <= days_in_month(y, m)
}

/// What `NaiveDate::parse_from_str(s, "%Y-%m-%d")` gives, as `(year, month, day)`.
pub uninterp spec fn parsed_ymd(s: Seq<char>) -> Option<(i32, u32, u32)>;

/// What `format("%Y%m")` gives for the date `(y, m, d)`.
pub uninterp spec fn year_month_label(y: i32, m: u32, d: u32) -> Seq<char>;

/// A calendar date (`chrono::NaiveDate`): a year, a month and a day of
/// that month that exist in the proleptic Gregorian calendar.
#[derive(Clone, Copy, Debug)]
pub struct Date {
    year: i32,
    month: u32,
    day: u32,
}

impl View for Date {
    type V = (i32, u32, u32);

    closed spec fn view(&self) -> (i32, u32, u32) {
        (self.year, self.month, self.day)
    }
}

/// `a` is an earlier day than `b`.
pub open spec fn date_before(a: (i32, u32, u32), b: (i32, u32, u32)) -> bool {
    a.0 < b.0 || (a.0 == b.0 && (a.1 < b.1 || (a.1 == b.1 && a.2 < b.2)))
}

impl Date {
    #[verifier::type_invariant]
    spec fn inv(self) -> bool {
        valid_ymd(self.year as int, self.month as int, self.day as int)
    }

    /// `NaiveDate::from_ymd_opt`: the date, when it exists.
    pub fn from_ymd_opt(year: i32, month: u32, day: u32) -> (r: Option<Date>)
        ensures
            r is Some <==> valid_ymd(year as int, month as int, day as int),
            r matches Some(d) ==> d@ == (year, month, day),
    {
        if year < MIN_YEAR || year > MAX_YEAR || month < 1 || month > 12 || day < 1 {
            return None;
        }
        let leap = (year % 4 == 0 && year % 100 != 0) || year % 400 == 0;
        let dim: u32 = if month == 2 {
            if leap {
                29
            } else {
                28
            }
        } else if month == 4 || month == 6 || month == 9 || month == 11 {
            30
        } else {
            31
        };
        if day > dim {
            None
        } else {
            Some(Date { year, month, day })
        }
    }

    /// The year.
    pub fn year(&self) -> (r: i32)
        ensures
            r == self@.0,
    {
        self.year
    }

    /// The month, 1 to 12.
    pub fn month(&self) -> (r: u32)
        ensures
            r == self@.1,
    {
        self.month
    }

    /// The day of the month, from 1.
    pub fn day(&self) -> (r: u32)
        ensures
            r == self@.2,
    {
        self.day
    }

    /// `self < other` on `NaiveDate`.
    pub fn is_before(&self, other: &Date) -> (r: bool)
        ensures
            r == date_before(self@, other@),
    {
        self.year < other.year || (self.year == other.year && (self.month < other.month || (
        self.month == other.month && self.day < other.day)))
    }

    /// `NaiveDate::parse_from_str(s, "%Y-%m-%d")`, the error dropped. The
    /// outcome is named `parsed_ymd`.
    #[verifier::external_body]
    pub(crate) fn parse_ymd(s: &str) -> (r: Option<Date>)
        ensures
            opt_date_parts(r) == parsed_ymd(s@),
    {
        match chrono::NaiveDate::parse_from_str(s, "%Y-%m-%d") {
            Ok(d) => Some(Date { year: chrono::Datelike::year(&d), month: chrono::Datelike::month(&d), day: chrono::Datelike::day(&d) }),
            Err(_) => None,
        }
    }

    /// `format("%Y%m")` on the date: the year zero-padded to four digits (with
    /// a sign outside 0..=9999), then the month as two digits.
    #[verifier::external_body]
    pub(crate) fn year_month(&self) -> (r: String)
        ensures
            r@ == year_month_label(self@.0, self@.1, self@.2),
            0 <= self@.0 <= 9999 ==> r@ == zero_padded(self@.0 as nat, 4) + zero_padded(self@.1 as nat, 2),
    {
        let d = chrono::NaiveDate::from_ymd_opt(self.year, self.month, self.day).unwrap();
        d.format("%Y%m").to_string()
    }
}

pub open spec fn opt_date_parts(r: Option<Date>) -> Option<(i32, u32, u32)> {
    match r {
        Some(d) => Some(d@),
        None => None,
    }
}

/// A date and a time of day (`chrono::NaiveDateTime`).
#[derive(Clone, Copy, Debug)]
pub struct DateTime {
    pub date: Date,
    pub hour: u32,
    pub minute: u32,
    pub second: u32,
    pub nanosecond: u32,
}

impl DateTime {
    /// `date.and_hms_opt(hour, minute, second)`: the timestamp, when the
    /// time of day exists.
    pub fn and_hms_opt(date: Date, hour: u32, minute: u32, second: u32) -> (r: Option<DateTime>)
        ensures
            r is Some <==> hour < 24 && minute < 60 && second < 60,
            r matches Some(t) ==> t.date == date && t.hour == hour && t.minute == minute
                && t.second == second && t.nanosecond == 0,
    {
        if hour < 24 && minute < 60 && second < 60 {
            Some(DateTime { date, hour, minute, second, nanosecond: 0 })
        } else {
            None
        }
    }
}

} // verus!
