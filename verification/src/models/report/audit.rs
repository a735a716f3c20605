//! The audit statement: every journal entry of a calendar year.

use vstd::prelude::*;

use crate::calendar::{Date, DateTime, MAX_YEAR, MIN_YEAR};
use crate::models::error::AppError;
use crate::text::{concat, int_digits, int_text};

pub use crate::models::journal_entry::AuditEntry;

verus! {

/// The journal entries of a year, with the bounds of the year.
#[derive(Clone, Debug)]
pub struct AuditReport {
    pub year: i32,
    pub from: DateTime,
    pub to: DateTime,
    pub entries: Vec<AuditEntry>,
    pub total_entries: usize,
}

/// The first and last second of `year` (`(y, m, d)`, hour, minute, second).
pub open spec fn year_bounds(year: i32, from: DateTime, to: DateTime) -> bool {
    &&& from.date@ == (year, 1u32, 1u32)
    &&& from.hour == 0 && from.minute == 0 && from.second == 0 && from.nanosecond == 0
    &&& to.date@ == (year, 12u32, 31u32)
    &&& to.hour == 23 && to.minute == 59 && to.second == 59 && to.nanosecond == 0
}

/// Audit statement.
pub struct AuditStatement;

impl AuditStatement {
    /// The first and the last second of a year: January 1 00:00:00 and
    /// December 31 23:59:59. A year outside the calendar's range is an
    /// invalid argument (`Invalid year: <year>`).
    pub fn period(year: i32) -> (r: Result<(DateTime, DateTime), AppError>)
        ensures
            r is Ok <==> MIN_YEAR <= year <= MAX_YEAR,
            r matches Ok((from, to)) ==> year_bounds(year, from, to),
            r is Err ==> (r matches Err(AppError::InvalidArgument(m)) && m@ == "Invalid year: "@
                + int_digits(year as int)),
    {
        let first = match Date::from_ymd_opt(year, 1, 1) {
            Some(d) => d,
            None => {
                return Err(AppError::InvalidArgument(concat("Invalid year: ", int_text(year as i64).as_str())));
            },
        };
        let from = match DateTime::and_hms_opt(first, 0, 0, 0) {
            Some(t) => t,
            None => {
                return Err(AppError::InvalidArgument(concat("Invalid year: ", int_text(year as i64).as_str())));
            },
        };
        let last = match Date::from_ymd_opt(year, 12, 31) {
            Some(d) => d,
            None => {
                return Err(AppError::InvalidArgument(concat("Invalid year: ", int_text(year as i64).as_str())));
            },
        };
        let to = match DateTime::and_hms_opt(last, 23, 59, 59) {
            Some(t) => t,
            None => {
                return Err(AppError::InvalidArgument(concat("Invalid year: ", int_text(year as i64).as_str())));
            },
        };
        Ok((from, to))
    }

    /// The audit report of a year from its journal entries (those created
    /// within `period(year)`, listed by the caller), with their count.
    pub fn compute(year: i32, entries: Vec<AuditEntry>) -> (r: Result<AuditReport, AppError>)
        ensures
            r is Ok <==> MIN_YEAR <= year <= MAX_YEAR,
            r matches Ok(rep) ==> rep.year == year && year_bounds(year, rep.from, rep.to)
                && rep.entries@ == entries@ && rep.total_entries == entries@.len(),
            r is Err ==> (r matches Err(AppError::InvalidArgument(m)) && m@ == "Invalid year: "@
                + int_digits(year as int)),
    {
        let (from, to) = match AuditStatement::period(year) {
            Ok(p) => p,
            Err(e) => {
                return Err(e);
            },
        };
        let total_entries = entries.len();
        Ok(AuditReport { year, from, to, entries, total_entries })
    }
}

} // verus!
