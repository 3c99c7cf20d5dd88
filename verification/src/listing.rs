//! What a listing shows of the tasks: which tasks, in which order, and how
//! each is marked.

use vstd::prelude::*;
use crate::dates::today;
use crate::models::{Date, Task};
use crate::ranking::{is_ranked, ranked};
use crate::store::Store;
use crate::urgency::{days_left, score, urgency_at, whole, Urgency};

verus! {

/// The tasks that a listing shows: all of them, or the pending ones.
pub open spec fn visible(show_completed: bool) -> spec_fn(Task) -> bool {
    |t: Task| show_completed || !t.completed
}

/// The tasks that a listing shows, in their order.
pub fn visible_tasks(tasks: &Vec<Task>, show_completed: bool) -> (shown: Vec<Task>)
    ensures
        shown@ == tasks@.filter(visible(show_completed)),
{
    let mut shown: Vec<Task> = Vec::new();
    let mut i: usize = 0;
    while i < tasks.len()
        invariant
            i <= tasks.len(),
            shown@ == tasks@.take(i as int).filter(visible(show_completed)),
        decreases tasks.len() - i,
    {
        proof {
            tasks@.lemma_take_succ_push(i as int);
            tasks@.take(i as int).lemma_filter_push(tasks@[i as int], visible(show_completed));
        }
        if show_completed || !tasks[i].completed {
            shown.push(tasks[i].duplicate());
        }
        i = i + 1;
    }
    proof {
        assert(tasks@.take(i as int) =~= tasks@);
    }
    shown
}

/// How far away the due date of a task is.
#[derive(Clone, Copy, Debug, PartialEq, Eq, Structural)]
pub enum TimeLeft {
    /// The due date passed this many days ago.
    Overdue(u64),
    /// The task is due today.
    Today,
    /// The task is due in this many days.
    Days(u64),
}

/// How a listing marks the urgency of a task.
#[derive(Clone, Copy, Debug, PartialEq, Eq, Structural)]
pub enum UrgencyBand {
    /// The task is completed.
    Done,
    /// The score is above 50.
    High,
    /// The score is above 20, up to 50.
    Medium,
    /// The score is 20 or less.
    Low,
}

/// How far away the due date of a task is on the day `today`.
pub open spec fn time_left_on(t: Task, today: Date) -> TimeLeft {
    let d = days_left(t, today);
    if d < 0 {
        TimeLeft::Overdue((-d) as u64)
    } else if d == 0 {
        TimeLeft::Today
    } else {
        TimeLeft::Days(d as u64)
    }
}

/// How a listing marks the urgency of a task on the day `today`.
pub open spec fn band_on(t: Task, today: Date) -> UrgencyBand {
    if t.completed {
        UrgencyBand::Done
    } else if score(t, today).gt(whole(50)) {
        UrgencyBand::High
    } else if score(t, today).gt(whole(20)) {
        UrgencyBand::Medium
    } else {
        UrgencyBand::Low
    }
}

/// How far away the due date of a task is on the day `today`.
pub fn time_left(task: &Task, today: Date) -> (r: TimeLeft)
    ensures
        r == time_left_on(*task, today),
{
    let d: i64 = task.due_date.days_after(today);
    if d < 0 {
        TimeLeft::Overdue((-d) as u64)
    } else if d == 0 {
        TimeLeft::Today
    } else {
        TimeLeft::Days(d as u64)
    }
}

/// How a listing marks the urgency of a task on the day `today`.
pub fn urgency_band(task: &Task, today: Date) -> (r: UrgencyBand)
    ensures
        r == band_on(*task, today),
{
    let u = urgency_at(task, today);
    if task.completed {
        UrgencyBand::Done
    } else if u.exceeds(&Urgency::whole(50)) {
        UrgencyBand::High
    } else if u.exceeds(&Urgency::whole(20)) {
        UrgencyBand::Medium
    } else {
        UrgencyBand::Low
    }
}

/// The tasks that a listing shows on the day `today`, most urgent first:
/// all of them, or the pending ones.
pub fn list_tasks(tasks: &Vec<Task>, all: bool, today: Date) -> (shown: Vec<Task>)
    ensures
        is_ranked(shown@, tasks@.filter(visible(all)), today),
{
    let kept = visible_tasks(tasks, all);
    ranked(&kept, today)
}

/// The tasks that a listing shows on the day of the call: what
/// [`list_tasks`] gives for some day.
pub fn cmd_list(store: &Store, all: bool) -> (shown: Vec<Task>)
    ensures
        exists|day: Date| #[trigger] is_ranked(shown@, store.tasks@.filter(visible(all)), day),
{
    let day = today();
    list_tasks(&store.tasks, all, day)
}

} // verus!
