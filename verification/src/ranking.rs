//! The order in which listings show tasks: most urgent first, and tasks of
//! equal urgency in the order in which they stand.

use vstd::prelude::*;
use crate::models::{Date, Task};
use crate::urgency::{Score, lemma_score_den_positive, score, urgency_at};

verus! {

/// Whether the task at place `a` is shown before the task at place `b`: it
/// scores more, or the same and stands first.
pub open spec fn shown_before(tasks: Seq<Task>, today: Date, a: int, b: int) -> bool {
    score(tasks[a], today).gt(score(tasks[b], today)) || (score(tasks[a], today).same(
        score(tasks[b], today),
    ) && a < b)
}

/// Whether `order` lists the first `n` places of `tasks`, each once, most
/// urgent first and equal scores in their standing order.
pub open spec fn ranks_prefix(order: Seq<usize>, tasks: Seq<Task>, today: Date, n: int) -> bool {
    &&& order.len() == n
    &&& forall|i: int| 0 <= i < order.len() ==> (#[trigger] order[i]) < n
    &&& forall|i: int, j: int|
        0 <= i < j < order.len() ==> shown_before(
            tasks,
            today,
            (#[trigger] order[i]) as int,
            (#[trigger] order[j]) as int,
        )
}

/// Whether `order` lists the places of `tasks`, each once, most urgent first
/// and equal scores in their standing order.
pub open spec fn is_ranking(order: Seq<usize>, tasks: Seq<Task>, today: Date) -> bool {
    ranks_prefix(order, tasks, today, tasks.len() as int)
}

/// A score that exceeds another exceeds every score that the other is at
/// least as large as.
pub proof fn lemma_gt_ge(a: Score, b: Score, c: Score)
    requires
        a.den > 0,
        b.den > 0,
        c.den > 0,
        a.gt(b),
        b.ge(c),
    ensures
        a.gt(c),
{
    assert(a.num * c.den > c.num * a.den) by (nonlinear_arith)
        requires
            a.den > 0,
            b.den > 0,
            c.den > 0,
            a.num * b.den > b.num * a.den,
            b.num * c.den >= c.num * b.den,
    {
        assert((a.num * b.den) * c.den > (b.num * a.den) * c.den);
        assert((b.num * c.den) * a.den >= (c.num * b.den) * a.den);
        assert((a.num * c.den) * b.den > (c.num * a.den) * b.den);
    }
}

/// No place is listed twice in a ranking: a task is never shown before itself.
pub proof fn lemma_ranking_distinct(order: Seq<usize>, tasks: Seq<Task>, today: Date, n: int)
    requires
        ranks_prefix(order, tasks, today, n),
    ensures
        forall|i: int, j: int| 0 <= i < j < order.len() ==> order[i] != order[j],
{
    assert forall|i: int, j: int| 0 <= i < j < order.len() implies order[i] != order[j] by {
        assert(shown_before(tasks, today, order[i] as int, order[j] as int));
    }
}

/// The places of the tasks in the order in which a listing shows them: by
/// falling urgency on the day `today`, and tasks of equal urgency in the
/// order in which they stand.
pub fn rank_tasks(tasks: &Vec<Task>, today: Date) -> (order: Vec<usize>)
    ensures
        is_ranking(order@, tasks@, today),
{
    let mut order: Vec<usize> = Vec::new();
    let mut k: usize = 0;
    while k < tasks.len()
        invariant
            k <= tasks.len(),
            ranks_prefix(order@, tasks@, today, k as int),
        decreases tasks.len() - k,
    {
        let mine = urgency_at(&tasks[k], today);
        let mut pos: usize = 0;
        let mut found = false;
        while pos < order.len() && !found
            invariant
                k < tasks.len(),
                pos <= order.len(),
                ranks_prefix(order@, tasks@, today, k as int),
                mine@ == score(tasks@[k as int], today),
                forall|j: int|
                    0 <= j < pos ==> !score(tasks@[k as int], today).gt(
                        score(tasks@[(#[trigger] order@[j]) as int], today),
                    ),
                found ==> pos < order.len() && score(tasks@[k as int], today).gt(
                    score(tasks@[order@[pos as int] as int], today),
                ),
            decreases order.len() - pos + if found { 0int } else { 1int },
        {
            let theirs = urgency_at(&tasks[order[pos]], today);
            if mine.exceeds(&theirs) {
                found = true;
            } else {
                pos = pos + 1;
            }
        }
        let ghost before = order@;
        order.insert(pos, k);
        proof {
            let after = order@;
            let sk = score(tasks@[k as int], today);
            assert forall|i: int, j: int| 0 <= i < j < after.len() implies shown_before(
                tasks@,
                today,
                (#[trigger] after[i]) as int,
                (#[trigger] after[j]) as int,
            ) by {
                if j < pos {
                    assert(after[i] == before[i] && after[j] == before[j]);
                } else if j == pos {
                    assert(after[i] == before[i]);
                    assert(!sk.gt(score(tasks@[before[i] as int], today)));
                } else if i < pos {
                    assert(after[i] == before[i] && after[j] == before[j - 1]);
                } else if i == pos {
                    let first = score(tasks@[before[pos as int] as int], today);
                    let other = score(tasks@[before[j - 1] as int], today);
                    lemma_score_den_positive(tasks@[k as int], today);
                    lemma_score_den_positive(tasks@[before[pos as int] as int], today);
                    lemma_score_den_positive(tasks@[before[j - 1] as int], today);
                    assert(sk.gt(first));
                    if j - 1 > pos {
                        assert(shown_before(
                            tasks@,
                            today,
                            before[pos as int] as int,
                            before[j - 1] as int,
                        ));
                        lemma_gt_ge(sk, first, other);
                    }
                } else {
                    assert(after[i] == before[i - 1] && after[j] == before[j - 1]);
                }
            }
        }
        k = k + 1;
    }
    order
}

/// The task at a place.
pub open spec fn picked(tasks: Seq<Task>) -> spec_fn(usize) -> Task {
    |i: usize| tasks[i as int]
}

/// Whether `shown` holds the tasks in the order in which a listing shows
/// them on the day `today`.
pub open spec fn is_ranked(shown: Seq<Task>, tasks: Seq<Task>, today: Date) -> bool {
    exists|order: Seq<usize>|
        #[trigger] is_ranking(order, tasks, today) && shown == order.map_values(picked(tasks))
}

/// The tasks in the order in which a listing shows them on the day `today`.
pub fn ranked(tasks: &Vec<Task>, today: Date) -> (out: Vec<Task>)
    ensures
        is_ranked(out@, tasks@, today),
{
    let order = rank_tasks(tasks, today);
    let mut out: Vec<Task> = Vec::new();
    let mut i: usize = 0;
    while i < order.len()
        invariant
            i <= order.len(),
            is_ranking(order@, tasks@, today),
            out@.len() == i,
            forall|j: int| 0 <= j < i ==> out@[j] == tasks@[order@[j] as int],
        decreases order.len() - i,
    {
        out.push(tasks[order[i]].duplicate());
        i = i + 1;
    }
    proof {
        assert(out@ =~= order@.map_values(picked(tasks@)));
        assert(is_ranking(order@, tasks@, today));
    }
    out
}

} // verus!
