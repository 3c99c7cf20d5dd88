//! The records the task manager keeps, and the invariants of a collection.

use vstd::prelude::*;
use crate::text::{decimal_text, write_decimal};

verus! {

/// One hour, in the unit that [`Hours`] counts.
pub const HUNDREDTHS_PER_HOUR: i64 = 100;

/// The first day of the calendar, -262143-01-01, counted from 0001-01-01 as
/// day 1.
pub const DATE_MIN_DAYS: i32 = -95_746_129;

/// The last day of the calendar, +262142-12-31, counted from 0001-01-01 as
/// day 1.
pub const DATE_MAX_DAYS: i32 = 95_745_399;

/// An amount of effort, counted in hundredths of an hour.
#[derive(Clone, Copy, Debug, PartialEq, Eq, Structural)]
pub struct Hours {
    pub hundredths: i64,
}

/// The sum of two amounts, held to the range of `i64`.
pub open spec fn clamp_hundredths(v: int) -> int {
    if v > i64::MAX {
        i64::MAX as int
    } else if v < i64::MIN {
        i64::MIN as int
    } else {
        v
    }
}

/// The size of an amount without its sign, in hundredths of an hour.
pub open spec fn magnitude(h: Hours) -> int {
    if h.hundredths < 0 {
        -h.hundredths
    } else {
        h.hundredths as int
    }
}

/// An amount written in hours with two decimals.
pub open spec fn hours_text(h: Hours) -> Seq<char> {
    decimal_text(
        if h.hundredths < 0 {
            "-"@
        } else {
            ""@
        },
        (magnitude(h) / 100) as u64,
        (magnitude(h) % 100) as u64,
    )
}

impl Hours {
    /// No effort at all.
    pub fn zero() -> (h: Hours)
        ensures
            h.hundredths == 0,
    {
        Hours { hundredths: 0 }
    }

    /// The amount that counts `hundredths` hundredths of an hour.
    pub fn from_hundredths(hundredths: i64) -> (h: Hours)
        ensures
            h.hundredths == hundredths,
    {
        Hours { hundredths }
    }

    /// The sum of two amounts; a sum beyond the range of `i64` stops at the
    /// nearest end of that range.
    pub fn plus(self, other: Hours) -> (h: Hours)
        ensures
            h.hundredths == clamp_hundredths(self.hundredths + other.hundredths),
    {
        let wide: i128 = self.hundredths as i128 + other.hundredths as i128;
        if wide > i64::MAX as i128 {
            Hours { hundredths: i64::MAX }
        } else if wide < i64::MIN as i128 {
            Hours { hundredths: i64::MIN }
        } else {
            Hours { hundredths: wide as i64 }
        }
    }

    /// The amount written in hours with two decimals.
    pub fn to_text(self) -> (r: String)
        ensures
            r@ == hours_text(self),
    {
        if self.hundredths < 0 {
            let size: u64 = (-(self.hundredths as i128)) as u64;
            write_decimal("-", size / 100, size % 100)
        } else {
            let size: u64 = self.hundredths as u64;
            write_decimal("", size / 100, size % 100)
        }
    }

    /// The amount itself, or nothing where it is negative.
    pub fn at_least_zero(self) -> (h: Hours)
        ensures
            h.hundredths == if self.hundredths < 0 { 0 } else { self.hundredths as int },
    {
        if self.hundredths < 0 {
            Hours { hundredths: 0 }
        } else {
            self
        }
    }
}

/// A calendar day without a time of day: the number of days from
/// 0001-01-01, which is day 1, in the proleptic Gregorian calendar.
#[derive(Clone, Copy, Debug, PartialEq, Eq, Structural)]
pub struct Date {
    pub days: i32,
}

impl Date {
    /// Whether the day lies inside the calendar, which is the range of days
    /// that can be written as year, month and day.
    pub open spec fn in_calendar(self) -> bool {
        DATE_MIN_DAYS <= self.days <= DATE_MAX_DAYS
    }

    /// The day `days` days after `self`, where the calendar holds it.
    pub open spec fn shifted(self, days: int) -> Option<Date> {
        if i32::MIN <= self.days + days <= i32::MAX && (Date {
            days: (self.days + days) as i32,
        }).in_calendar() {
            Some(Date { days: (self.days + days) as i32 })
        } else {
            None
        }
    }

    /// The day with the given number, if the calendar holds it.
    pub fn from_days(days: i32) -> (d: Option<Date>)
        ensures
            d == (if (Date { days }).in_calendar() {
                Some(Date { days })
            } else {
                None
            }),
    {
        if DATE_MIN_DAYS <= days && days <= DATE_MAX_DAYS {
            Some(Date { days })
        } else {
            None
        }
    }

    /// The day `days` days later, or `None` where that day lies outside the
    /// calendar.
    pub fn add_days(self, days: i32) -> (d: Option<Date>)
        ensures
            d == self.shifted(days as int),
    {
        let wide: i64 = self.days as i64 + days as i64;
        if DATE_MIN_DAYS as i64 <= wide && wide <= DATE_MAX_DAYS as i64 {
            Some(Date { days: wide as i32 })
        } else {
            None
        }
    }

    /// How many days lie between `today` and `self`: negative once the day
    /// has passed.
    pub fn days_after(self, today: Date) -> (n: i64)
        ensures
            n == self.days - today.days,
    {
        self.days as i64 - today.days as i64
    }
}

/// A unit of work with its estimate, its due date and its progress.
#[derive(Clone, Debug, PartialEq, Eq)]
pub struct Task {
    /// Key of the task inside its collection; positive.
    pub id: u64,
    pub name: String,
    pub project: Option<String>,
    /// Estimated effort for the whole task.
    pub expected_hours: Hours,
    pub due_date: Date,
    /// When the task was created, as an RFC 3339 timestamp.
    pub created_at: String,
    pub completed: bool,
    /// When the task was completed; absent while it is pending.
    pub completed_at: Option<String>,
    /// Effort logged so far.
    pub hours_worked: Hours,
    /// Name of the template the task came from.  The template may since
    /// have been removed.
    pub template: Option<String>,
    /// How the task repeats once it is completed.
    pub recurrence: Option<String>,
}

impl Task {
    /// A task carries a completion time exactly when it is completed.
    pub open spec fn wf(self) -> bool {
        self.completed == self.completed_at.is_some()
    }

    /// Whether the task names `template` as the template it came from.
    pub open spec fn uses_template(self, template: Seq<char>) -> bool {
        self.template matches Some(t) && t@ == template
    }

    /// A copy of the task, field for field.
    pub fn duplicate(&self) -> (t: Task)
        ensures
            t == *self,
    {
        Task {
            id: self.id,
            name: self.name.clone(),
            project: copy_text(&self.project),
            expected_hours: self.expected_hours,
            due_date: self.due_date,
            created_at: self.created_at.clone(),
            completed: self.completed,
            completed_at: copy_text(&self.completed_at),
            hours_worked: self.hours_worked,
            template: copy_text(&self.template),
            recurrence: copy_text(&self.recurrence),
        }
    }
}

/// A copy of an optional text.
pub fn copy_text(text: &Option<String>) -> (t: Option<String>)
    ensures
        t == *text,
{
    match text {
        Some(s) => Some(s.clone()),
        None => None,
    }
}

/// Defaults for tasks of one kind, found by name.
#[derive(Clone, Debug, PartialEq, Eq)]
pub struct Template {
    pub name: String,
    pub project: Option<String>,
    /// Estimate for a task made from the template: set by hand, or the mean
    /// effort of the completed tasks that name the template.
    pub default_hours: Hours,
}

impl Template {
    /// A copy of the template, field for field.
    pub fn duplicate(&self) -> (t: Template)
        ensures
            t == *self,
    {
        Template {
            name: self.name.clone(),
            project: copy_text(&self.project),
            default_hours: self.default_hours,
        }
    }
}

/// Why a command changed nothing.
#[derive(Clone, Copy, Debug, PartialEq, Eq, Structural)]
pub enum Error {
    /// The due date is not a calendar day written as `YYYY-MM-DD`.
    InvalidDate,
    /// No task has the id, or no template has the name.
    NotFound,
    /// A template of that name is already there.
    AlreadyExists,
    /// The collection could not be written.  No function of this crate
    /// returns it: it is for the caller that writes the collections.
    PersistenceFailure,
    /// The command needs an id above `u64::MAX` or a day outside the calendar.
    OutOfRange,
}

} // verus!
