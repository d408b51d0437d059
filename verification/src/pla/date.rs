//! Calendar dates, as the `chrono` crate reads them.

use vstd::prelude::*;
use chrono::Datelike;

verus! {

/// A day of the calendar: what a `chrono::NaiveDate` holds, as plain numbers.
#[derive(Clone, Copy, PartialEq, Eq, Structural, Debug)]
pub struct PlaDate {
    pub year: i32,
    pub month: u32,
    pub day: u32,
}

impl PlaDate {
    /// The month and the day lie within what a calendar has. Whether the
    /// month has that many days is not modelled.
    pub open spec fn wf(self) -> bool {
        1 <= self.month <= 12 && 1 <= self.day <= 31
    }
}

/// What `chrono::NaiveDate::parse_from_str` reads from `text` under
/// `format`: the date, or nothing where it reports an error.
pub uninterp spec fn naive_date_from_str(text: Seq<char>, format: Seq<char>) -> Option<PlaDate>;

/// Calls `chrono::NaiveDate::parse_from_str`, and `Datelike::year`, `month`
/// and `day` on what it returns. Not proved: the date is taken to be a
/// function of the two texts, which `naive_date_from_str` names, and the
/// month and the day to lie in the ranges that `Datelike` documents.
#[verifier::external_body]
pub(crate) fn parse_naive_date(text: &str, format: &str) -> (date: Option<PlaDate>)
    ensures
        date == naive_date_from_str(text@, format@),
        date matches Some(day) ==> day.wf(),
{
    match chrono::NaiveDate::parse_from_str(text, format) {
        Ok(date) => Some(PlaDate { year: date.year(), month: date.month(), day: date.day() }),
        Err(_) => None,
    }
}

} // verus!
