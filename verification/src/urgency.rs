//! How pressing a task is, as an exact fraction.
//!
//! Estimates and days are whole numbers, so the score of every task is a
//! fraction with a positive denominator, and scores are compared without
//! rounding.

use vstd::prelude::*;
use crate::dates::today;
use crate::models::{Date, Task};

verus! {

/// A score as a fraction `num / den` with a positive denominator.
pub ghost struct Score {
    pub num: int,
    pub den: int,
}

impl Score {
    /// Whether `self` is the larger fraction.
    pub open spec fn gt(self, other: Score) -> bool {
        self.num * other.den > other.num * self.den
    }

    /// Whether `self` is at least as large a fraction as `other`.
    pub open spec fn ge(self, other: Score) -> bool {
        self.num * other.den >= other.num * self.den
    }

    /// Whether the two fractions have the same value.
    pub open spec fn same(self, other: Score) -> bool {
        self.num * other.den == other.num * self.den
    }
}

/// The whole number `n` as a score.
pub open spec fn whole(n: int) -> Score {
    Score { num: n, den: 1 }
}

/// How many days are left until the task is due; zero or less once the day
/// has come.
pub open spec fn days_left(t: Task, today: Date) -> int {
    t.due_date.days - today.days
}

/// The urgency of a task on the day `today`.
///
/// A completed task scores -1.  A pending task that is due today or earlier
/// scores 100, plus its estimate in hours, plus 2 for each day it is overdue.
/// A pending task due in `d` days scores `10 / d`, scaled by 1 plus an eighth
/// of its estimate in hours.
pub open spec fn score(t: Task, today: Date) -> Score {
    let d = days_left(t, today);
    let h = t.expected_hours.hundredths as int;
    if t.completed {
        Score { num: -1, den: 1 }
    } else if d <= 0 {
        Score { num: 10000 + h + 200 * (-d), den: 100 }
    } else {
        Score { num: 800 + h, den: 80 * d }
    }
}

/// An urgency score held as a fraction of two machine integers.
#[derive(Clone, Copy, Debug)]
pub struct Urgency {
    num: i128,
    den: i128,
}

impl View for Urgency {
    type V = Score;

    closed spec fn view(&self) -> Score {
        Score { num: self.num as int, den: self.den as int }
    }
}

impl Urgency {
    #[verifier::type_invariant]
    spec fn inv(self) -> bool {
        &&& 0 < self.den <= 0x100_0000_0000
        &&& -0x2_0000_0000_0000_0000 <= self.num <= 0x2_0000_0000_0000_0000
    }

    /// The whole number `n` as an urgency.
    pub fn whole(n: i64) -> (u: Urgency)
        ensures
            u@ == whole(n as int),
    {
        Urgency { num: n as i128, den: 1 }
    }

    /// The numerator of the fraction.
    pub fn numerator(&self) -> (n: i128)
        ensures
            n == self@.num,
    {
        self.num
    }

    /// The denominator of the fraction; positive.
    pub fn denominator(&self) -> (n: i128)
        ensures
            n == self@.den,
            n > 0,
    {
        proof {
            use_type_invariant(self);
        }
        self.den
    }

    /// Whether `self` is the larger score.
    pub fn exceeds(&self, other: &Urgency) -> (r: bool)
        ensures
            r == self@.gt(other@),
    {
        proof {
            use_type_invariant(self);
            use_type_invariant(other);
            lemma_product_fits(self.num as int, other.den as int);
            lemma_product_fits(other.num as int, self.den as int);
        }
        self.num * other.den > other.num * self.den
    }

    /// Whether `self` is at least as large a score as `other`.
    pub fn at_least(&self, other: &Urgency) -> (r: bool)
        ensures
            r == self@.ge(other@),
    {
        proof {
            use_type_invariant(self);
            use_type_invariant(other);
            lemma_product_fits(self.num as int, other.den as int);
            lemma_product_fits(other.num as int, self.den as int);
        }
        self.num * other.den >= other.num * self.den
    }
}

/// The product of a numerator and a denominator of an urgency fits in 128 bits.
proof fn lemma_product_fits(n: int, d: int)
    requires
        0 < d <= 0x100_0000_0000,
        -0x2_0000_0000_0000_0000 <= n <= 0x2_0000_0000_0000_0000,
    ensures
        -0x200_0000_0000_0000_0000_0000_0000 <= n * d <= 0x200_0000_0000_0000_0000_0000_0000,
{
    assert(-0x200_0000_0000_0000_0000_0000_0000 <= n * d <= 0x200_0000_0000_0000_0000_0000_0000)
        by (nonlinear_arith)
        requires
            0 < d <= 0x100_0000_0000,
            -0x2_0000_0000_0000_0000 <= n <= 0x2_0000_0000_0000_0000,
    ;
}

/// The urgency of a task on the day `today`.
pub fn urgency_at(task: &Task, today: Date) -> (u: Urgency)
    ensures
        u@ == score(*task, today),
{
    if task.completed {
        return Urgency { num: -1, den: 1 };
    }
    let d: i64 = task.due_date.days_after(today);
    let h: i128 = task.expected_hours.hundredths as i128;
    if d <= 0 {
        Urgency { num: 10000 + h + 200 * (-(d as i128)), den: 100 }
    } else {
        Urgency { num: 800 + h, den: 80 * (d as i128) }
    }
}

/// The urgency of a task on the day of the call: what [`urgency_at`] gives
/// for some day.
pub fn compute_urgency(task: &Task) -> (u: Urgency)
    ensures
        exists|day: Date| u@ == score(*task, day),
        task.completed ==> u@ == whole(-1),
{
    let day = today();
    let u = urgency_at(task, day);
    assert(u@ == score(*task, day));
    u
}

/// A completed task scores exactly -1, whatever the day.
pub proof fn lemma_completed_scores_minus_one(t: Task, today: Date)
    requires
        t.completed,
    ensures
        score(t, today) == whole(-1),
{
}

/// A pending task that is due today or earlier scores at least 100, as long
/// as its estimate does not take away more than its overdue days add.
pub proof fn lemma_overdue_scores_at_least_100(t: Task, today: Date)
    requires
        !t.completed,
        days_left(t, today) <= 0,
        t.expected_hours.hundredths + 200 * (-days_left(t, today)) >= 0,
    ensures
        score(t, today).ge(whole(100)),
{
}

/// A pending task due in the future scores above zero, as long as its
/// estimate is more than minus eight hours.
pub proof fn lemma_future_scores_above_zero(t: Task, today: Date)
    requires
        !t.completed,
        days_left(t, today) > 0,
        t.expected_hours.hundredths > -800,
    ensures
        score(t, today).gt(whole(0)),
        score(t, today).den > 0,
{
}

/// Of two pending tasks with the same estimate, both due in the future, the
/// one with more days left scores strictly less, as long as the estimate is
/// more than minus eight hours.
pub proof fn lemma_future_score_decreases(a: Task, b: Task, today: Date)
    requires
        !a.completed,
        !b.completed,
        a.expected_hours == b.expected_hours,
        a.expected_hours.hundredths > -800,
        0 < days_left(a, today) < days_left(b, today),
    ensures
        score(a, today).gt(score(b, today)),
{
    let h = 800 + a.expected_hours.hundredths;
    let da = days_left(a, today);
    let db = days_left(b, today);
    assert(h * (80 * db) > h * (80 * da)) by (nonlinear_arith)
        requires
            h > 0,
            0 < da < db,
    ;
}

/// The denominator of a task's score is positive.
pub proof fn lemma_score_den_positive(t: Task, today: Date)
    ensures
        score(t, today).den > 0,
{
}

} // verus!
