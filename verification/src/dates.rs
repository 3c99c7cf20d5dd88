//! Calendar days and timestamps, read and written through `chrono`.

use vstd::prelude::*;
use crate::models::{Date, Error};
use crate::text::{lowercase, lowercase_text, same_text};

verus! {

/// The day number that `chrono` reads out of a text in the format
/// `%Y-%m-%d`, or `None` where it reads none.
pub uninterp spec fn parsed_day_number(text: Seq<char>) -> Option<i32>;

/// The text that `chrono` writes for the day with the given number, or `None`
/// where it has no such day.
pub uninterp spec fn day_number_text(days: i32) -> Option<Seq<char>>;

/// Calls `chrono::NaiveDate::parse_from_str` with the format `%Y-%m-%d` and
/// takes the day number of the date it returns with
/// `chrono::Datelike::num_days_from_ce`.  The contract only names the result:
/// the same text always gives the same answer.
#[verifier::external_body]
pub(crate) fn parse_day_number(text: &str) -> (r: Option<i32>)
    ensures
        r == parsed_day_number(text@),
{
    match chrono::NaiveDate::parse_from_str(text, "%Y-%m-%d") {
        Ok(date) => Some(chrono::Datelike::num_days_from_ce(&date)),
        Err(_) => None,
    }
}

/// Calls `chrono::NaiveDate::from_num_days_from_ce_opt` and writes the date
/// it returns with its `Display`, which prints year, month and day.  The
/// contract only names the result.
#[verifier::external_body]
pub(crate) fn write_day_number(days: i32) -> (r: Option<String>)
    ensures
        match r {
            Some(text) => day_number_text(days) == Some(text@),
            None => day_number_text(days).is_none(),
        },
{
    match chrono::NaiveDate::from_num_days_from_ce_opt(days) {
        Some(date) => Some(date.to_string()),
        None => None,
    }
}

/// Reads the clock with `chrono::Local::now` and takes the day number of the
/// local date.  Nothing is claimed of the result.
#[verifier::external_body]
pub(crate) fn clock_day_number() -> (days: i32) {
    chrono::Datelike::num_days_from_ce(&chrono::Local::now().date_naive())
}

/// Reads the clock with `chrono::Local::now` and writes the moment with
/// `DateTime::to_rfc3339`.  Nothing is claimed of the result.
#[verifier::external_body]
pub(crate) fn clock_timestamp() -> (stamp: String) {
    chrono::Local::now().to_rfc3339()
}

/// The date that a day number stands for: `InvalidDate` where there is no
/// number or the calendar does not hold it.
pub open spec fn date_of_day_number(number: Option<i32>) -> Result<Date, Error> {
    match number {
        Some(days) => if (Date { days }).in_calendar() {
            Ok(Date { days })
        } else {
            Err(Error::InvalidDate)
        },
        None => Err(Error::InvalidDate),
    }
}

/// Turns what the reader found in a text into a date.
pub fn date_from_day_number(number: Option<i32>) -> (r: Result<Date, Error>)
    ensures
        r == date_of_day_number(number),
{
    match number {
        Some(days) => match Date::from_days(days) {
            Some(date) => Ok(date),
            None => Err(Error::InvalidDate),
        },
        None => Err(Error::InvalidDate),
    }
}

/// Reads a due date written as `YYYY-MM-DD`.
pub fn parse_date(text: &str) -> (r: Result<Date, Error>)
    ensures
        r == date_of_day_number(parsed_day_number(text@)),
{
    date_from_day_number(parse_day_number(text))
}

/// Writes a date as year, month and day, or `None` where the calendar does
/// not hold it.
pub fn format_date(date: Date) -> (r: Option<String>)
    ensures
        match r {
            Some(text) => day_number_text(date.days) == Some(text@),
            None => day_number_text(date.days).is_none(),
        },
{
    write_day_number(date.days)
}

/// The local date at the moment of the call.
pub fn today() -> (d: Date) {
    Date { days: clock_day_number() }
}

/// The days to the next occurrence for a recurrence pattern in lower case.
pub open spec fn step_of(lowered: Seq<char>) -> Option<int> {
    if lowered == "daily"@ {
        Some(1)
    } else if lowered == "weekly"@ {
        Some(7)
    } else if lowered == "monthly"@ {
        Some(30)
    } else {
        None
    }
}

/// The days to the next occurrence for a recurrence pattern as stored:
/// letter case does not count.
pub open spec fn recurrence_step(recur: Seq<char>) -> Option<int> {
    step_of(lowercase_text(recur))
}

/// The days to the next occurrence for a pattern already in lower case:
/// 1 for `daily`, 7 for `weekly`, 30 for `monthly`.
pub fn step_of_lowered(lowered: &str) -> (r: Option<i32>)
    ensures
        match r {
            Some(n) => step_of(lowered@) == Some(n as int),
            None => step_of(lowered@).is_none(),
        },
{
    if same_text(lowered, "daily") {
        Some(1)
    } else if same_text(lowered, "weekly") {
        Some(7)
    } else if same_text(lowered, "monthly") {
        Some(30)
    } else {
        None
    }
}

/// The due date of the next occurrence of a task due on `current`.
pub open spec fn next_due(recur: Seq<char>, current: Date) -> Result<Option<Date>, Error> {
    match recurrence_step(recur) {
        None => Ok(None),
        Some(step) => match current.shifted(step) {
            Some(d) => Ok(Some(d)),
            None => Err(Error::OutOfRange),
        },
    }
}

/// The due date of the next occurrence of a task due on `current`:
/// `Ok(None)` where the pattern is not one of `daily`, `weekly` and
/// `monthly`, and `OutOfRange` where the next day lies outside the calendar.
pub fn get_next_recurrence(recur: &str, current: Date) -> (r: Result<Option<Date>, Error>)
    ensures
        r == next_due(recur@, current),
{
    let lowered = lowercase(recur);
    match step_of_lowered(lowered.as_str()) {
        None => Ok(None),
        Some(step) => match current.add_days(step) {
            Some(d) => Ok(Some(d)),
            None => Err(Error::OutOfRange),
        },
    }
}

} // verus!
