//! The calendar dates shown on a mod's card.

use vstd::prelude::*;
use vstd::string::StringExecFns;
use chrono::Datelike;
use crate::text::{decimal_digits, decimal_text};

verus! {

/// The UTC calendar date, as year, month and day, of the moment that lies
/// `seconds` after the start of 1970, or `None` where the calendar does not
/// reach that far.
pub uninterp spec fn utc_date(seconds: i64) -> Option<(i32, u32, u32)>;

/// The UTC calendar date of a timestamp.
///
/// Trusted: calls `chrono::DateTime::<Utc>::from_timestamp` with no
/// nanoseconds, then `Datelike::year`, `Datelike::month` and `Datelike::day`
/// on the result. The date is named, not described: it follows the proleptic
/// Gregorian calendar and depends on the timestamp alone.
#[verifier::external_body]
fn date_of(seconds: i64) -> (date: Option<(i32, u32, u32)>)
    ensures
        date == utc_date(seconds),
{
    chrono::DateTime::<chrono::Utc>::from_timestamp(seconds, 0).map(
        |moment| (moment.year(), moment.month(), moment.day()),
    )
}

/// A year as written: its digits, after a minus sign when it lies before the
/// year zero.
pub open spec fn spec_year_text(year: i32) -> Seq<char> {
    if year < 0 {
        "-"@ + decimal_digits((-year) as nat)
    } else {
        decimal_digits(year as nat)
    }
}

/// A date as shown on a card: the label, then day, month and year separated
/// by slashes. A timestamp out of the calendar's reach is shown as the first
/// day of 1970.
pub open spec fn spec_date_text(label: Seq<char>, date: Option<(i32, u32, u32)>) -> Seq<char> {
    let (year, month, day) = match date {
        Some(found) => found,
        None => (1970i32, 1u32, 1u32),
    };
    label + ": "@ + decimal_digits(day as nat) + "/"@ + decimal_digits(month as nat) + "/"@
        + spec_year_text(year)
}

/// Writes a year.
pub fn year_text(year: i32) -> (text: String)
    ensures
        text@ == spec_year_text(year),
{
    if year < 0 {
        let years_before: u64 = (-(year as i64)) as u64;
        let mut text = String::from_str("-");
        text.append(decimal_text(years_before).as_str());
        text
    } else {
        decimal_text(year as u64)
    }
}

/// Writes a date for a card, given what the calendar made of the timestamp.
pub fn date_text(label: &str, date: Option<(i32, u32, u32)>) -> (text: String)
    ensures
        text@ == spec_date_text(label@, date),
{
    let (year, month, day) = match date {
        Some(found) => found,
        None => (1970i32, 1u32, 1u32),
    };
    let mut text = String::from_str(label);
    text.append(": ");
    text.append(decimal_text(day as u64).as_str());
    text.append("/");
    text.append(decimal_text(month as u64).as_str());
    text.append("/");
    text.append(year_text(year).as_str());
    text
}

/// Writes the date of a timestamp for a card.
pub fn date_label(label: &str, seconds: i64) -> (text: String)
    ensures
        text@ == spec_date_text(label@, utc_date(seconds)),
{
    date_text(label, date_of(seconds))
}

} // verus!
