//! The calendar, as the outside crate `chrono` reads it off a time.

use vstd::prelude::*;
use chrono::Datelike;

verus! {

/// `chrono::NaiveDateTime`, a date and time without a time zone. A value is
/// carried from where it comes to where it goes; nothing is known of what it
/// holds.
#[verifier::external_type_specification]
#[verifier::external_body]
pub struct ExNaiveDateTime(chrono::NaiveDateTime);

/// A day of the calendar.
#[derive(Clone, Copy, Debug, PartialEq, Eq, Structural)]
pub struct CalendarDate {
    pub year: i32,
    pub month: u32,
    pub day: u32,
}

impl CalendarDate {
    /// Whether the month and the day are in the calendar's range.
    pub open spec fn valid(&self) -> bool {
        1 <= self.month <= 12 && 1 <= self.day <= 31
    }
}

/// The day of a time, read through `year`, `month` and `day` of
/// `chrono::Datelike`: the month is between 1 and 12, the day between 1 and
/// 31.
#[verifier::external_body]
pub(crate) fn calendar_date(at: &chrono::NaiveDateTime) -> (date: CalendarDate)
    ensures
        date.valid(),
{
    CalendarDate { year: at.year(), month: at.month(), day: at.day() }
}

} // verus!
