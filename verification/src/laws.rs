//! What holds of the commands whatever the store holds.

use vstd::prelude::*;
use crate::commands::{
    archivable, at_least_zero, completion_plan, default_hours, hours_logged, not_archivable,
    task_added, task_completed, Completion,
};
use crate::dates::recurrence_step;
use crate::models::{Date, Error, Hours, Task, Template};
use crate::store::{
    first_index, lemma_first_index, lemma_first_index_meaning, named, with_id, Store,
};
use crate::templates::{counts_for, lemma_mean_of_single, not_named, template_removed};

verus! {

/// Adding a task that names a template which is not there makes exactly one
/// new template, at the end, with that name and the project and estimate
/// that were given; without an estimate the template gets one hour.
pub proof fn lemma_add_creates_unknown_template(
    pre: Store,
    post: Store,
    r: Result<u64, Error>,
    name: String,
    project: Option<String>,
    hours: Option<Hours>,
    due_date: Date,
    template: String,
    recur: Option<String>,
    now: String,
)
    requires
        task_added(pre, post, r, name, project, hours, due_date, Some(template), recur, now),
        r.is_ok(),
        first_index(pre.templates@, named(template@)).is_none(),
    ensures
        post.templates@.len() == pre.templates@.len() + 1,
        post.templates@.drop_last() == pre.templates@,
        post.templates@.last() == (Template {
            name: template,
            project,
            default_hours: match hours {
                Some(h) => h,
                None => default_hours(),
            },
        }),
        post.tasks@.last().project == project,
        post.tasks@.last().template == Some(template),
{
    assert(post.templates@.drop_last() =~= pre.templates@);
}

/// Adding a task that names a template which is there makes no template,
/// and the task takes the project and the estimate that it was not given
/// from the first template of that name.
pub proof fn lemma_add_inherits_known_template(
    pre: Store,
    post: Store,
    r: Result<u64, Error>,
    name: String,
    project: Option<String>,
    hours: Option<Hours>,
    due_date: Date,
    template: String,
    recur: Option<String>,
    now: String,
)
    requires
        task_added(pre, post, r, name, project, hours, due_date, Some(template), recur, now),
        r.is_ok(),
        first_index(pre.templates@, named(template@)).is_some(),
    ensures
        post.templates@ == pre.templates@,
        post.tasks@.len() == pre.tasks@.len() + 1,
        post.tasks@.last().project == (if project.is_some() {
            project
        } else {
            pre.templates@[first_index(pre.templates@, named(template@)).unwrap()].project
        }),
        post.tasks@.last().expected_hours == at_least_zero(
            match hours {
                Some(h) => h,
                None => pre.templates@[first_index(
                    pre.templates@,
                    named(template@),
                ).unwrap()].default_hours,
            },
        ),
{
}

/// Completing a task that recurs, with a next day inside the calendar and
/// an id to spare, leaves the task completed in its place and puts exactly
/// one new task at the end: pending, nothing logged, due one step later,
/// under the next id.
pub proof fn lemma_completion_spawns_next(
    pre: Store,
    post: Store,
    r: Result<Completion, Error>,
    id: u64,
    now: String,
)
    requires
        task_completed(pre, post, r, id, now),
        r.is_ok(),
        first_index(pre.tasks@, with_id(id)).is_some(),
        pre.tasks@[first_index(pre.tasks@, with_id(id)).unwrap()].recurrence.is_some(),
        recurrence_step(
            pre.tasks@[first_index(pre.tasks@, with_id(id)).unwrap()].recurrence.unwrap()@,
        ).is_some(),
    ensures
        post.tasks@.len() == pre.tasks@.len() + 1,
        post.tasks@[first_index(pre.tasks@, with_id(id)).unwrap()].completed,
        post.tasks@[first_index(pre.tasks@, with_id(id)).unwrap()].id == id,
        !post.tasks@.last().completed,
        post.tasks@.last().hours_worked == (Hours { hundredths: 0 }),
        post.tasks@.last().due_date.days == pre.tasks@[first_index(
            pre.tasks@,
            with_id(id),
        ).unwrap()].due_date.days + recurrence_step(
            pre.tasks@[first_index(pre.tasks@, with_id(id)).unwrap()].recurrence.unwrap()@,
        ).unwrap(),
        r.unwrap().spawned == Some(post.tasks@.last().id),
        forall|j: int|
            0 <= j < pre.tasks@.len() && j != first_index(pre.tasks@, with_id(id)).unwrap()
                ==> post.tasks@[j] == pre.tasks@[j],
{
    lemma_first_index_meaning(pre.tasks@, with_id(id));
    let plan = completion_plan(pre.tasks@, id);
    assert(plan.is_ok());
}

/// Completing a task that does not recur, or whose pattern is not known,
/// completes it in its place and adds no task.
pub proof fn lemma_completion_without_recurrence(
    pre: Store,
    post: Store,
    r: Result<Completion, Error>,
    id: u64,
    now: String,
)
    requires
        task_completed(pre, post, r, id, now),
        first_index(pre.tasks@, with_id(id)).is_some(),
        pre.tasks@[first_index(pre.tasks@, with_id(id)).unwrap()].recurrence matches Some(p)
            ==> recurrence_step(p@).is_none(),
    ensures
        r.is_ok(),
        r.unwrap().spawned.is_none(),
        r.unwrap().unknown_recurrence == pre.tasks@[first_index(
            pre.tasks@,
            with_id(id),
        ).unwrap()].recurrence.is_some(),
        post.tasks@.len() == pre.tasks@.len(),
        post.tasks@[first_index(pre.tasks@, with_id(id)).unwrap()].completed,
{
    lemma_first_index_meaning(pre.tasks@, with_id(id));
}

/// After a template was removed no task names it, every task that named it
/// names none, and every other task is as it was.
pub proof fn lemma_removal_clears_references(
    pre: Store,
    post: Store,
    r: Result<(), Error>,
    name: Seq<char>,
)
    requires
        template_removed(pre, post, r, name),
        r.is_ok(),
    ensures
        post.tasks@.len() == pre.tasks@.len(),
        forall|i: int| 0 <= i < post.tasks@.len() ==> !(#[trigger] post.tasks@[i]).uses_template(name),
        forall|i: int|
            0 <= i < pre.tasks@.len() && (#[trigger] pre.tasks@[i]).uses_template(name)
                ==> post.tasks@[i].template.is_none(),
        forall|i: int|
            0 <= i < pre.tasks@.len() && !(#[trigger] pre.tasks@[i]).uses_template(name)
                ==> post.tasks@[i] == pre.tasks@[i],
        first_index(post.templates@, named(name)).is_none(),
{
    let kept = pre.templates@.filter(not_named(name));
    assert forall|j: int| 0 <= j < kept.len() implies !named(name)(#[trigger] kept[j]) by {
        pre.templates@.lemma_filter_pred(not_named(name), j);
    }
    crate::store::lemma_no_index(kept, named(name));
}

/// Removing a template fails with `NotFound` exactly when no template has
/// the name, and then nothing changes.
pub proof fn lemma_removal_of_unknown_template(
    pre: Store,
    post: Store,
    r: Result<(), Error>,
    name: Seq<char>,
)
    requires
        template_removed(pre, post, r, name),
    ensures
        r == Err::<(), Error>(Error::NotFound) <==> (forall|i: int|
            0 <= i < pre.templates@.len() ==> (#[trigger] pre.templates@[i]).name@ != name),
        r.is_err() ==> post.tasks@ == pre.tasks@ && post.templates@ == pre.templates@,
{
    lemma_first_index_meaning(pre.templates@, named(name));
    if r.is_err() {
        crate::templates::lemma_all_kept(pre.templates@, not_named(name));
    } else {
        let k = first_index(pre.templates@, named(name)).unwrap();
        assert(pre.templates@[k].name@ == name);
    }
}

/// Logging no hours on a task that is there succeeds and changes nothing.
pub proof fn lemma_log_zero_changes_nothing(
    pre: Store,
    post: Store,
    r: Result<(), Error>,
    id: u64,
)
    requires
        hours_logged(pre, post, r, id, Hours { hundredths: 0 }),
        first_index(pre.tasks@, with_id(id)).is_some(),
    ensures
        r == Ok::<(), Error>(()),
        post.tasks@ == pre.tasks@,
        post.templates@ == pre.templates@,
{
    lemma_first_index_meaning(pre.tasks@, with_id(id));
    let i = first_index(pre.tasks@, with_id(id)).unwrap();
    assert(crate::commands::logged(pre.tasks@[i], Hours { hundredths: 0 }) == pre.tasks@[i]);
    assert(post.tasks@ =~= pre.tasks@);
}

/// A task carries a completion time exactly when it is completed, after
/// every completion as before it.
pub proof fn lemma_completion_keeps_tasks_well_formed(
    pre: Store,
    post: Store,
    r: Result<Completion, Error>,
    id: u64,
    now: String,
)
    requires
        task_completed(pre, post, r, id, now),
        crate::store::tasks_wf(pre.tasks@),
    ensures
        crate::store::tasks_wf(post.tasks@),
{
    lemma_first_index_meaning(pre.tasks@, with_id(id));
}

/// Completing a task that names a template, where no other task that names
/// it is completed, sets the estimate of that template to the effort logged
/// on the task.
pub proof fn lemma_single_completion_sets_average(
    pre: Store,
    post: Store,
    r: Result<Completion, Error>,
    id: u64,
    now: String,
    template: String,
)
    requires
        task_completed(pre, post, r, id, now),
        r.is_ok(),
        first_index(pre.tasks@, with_id(id)).is_some(),
        pre.tasks@[first_index(pre.tasks@, with_id(id)).unwrap()].template == Some(template),
        first_index(pre.templates@, named(template@)).is_some(),
        forall|j: int|
            0 <= j < pre.tasks@.len() && j != first_index(pre.tasks@, with_id(id)).unwrap()
                ==> !counts_for(#[trigger] pre.tasks@[j], template@),
    ensures
        post.templates@[first_index(pre.templates@, named(template@)).unwrap()].default_hours
            == pre.tasks@[first_index(pre.tasks@, with_id(id)).unwrap()].hours_worked,
        post.templates@[first_index(pre.templates@, named(template@)).unwrap()].name
            == pre.templates@[first_index(pre.templates@, named(template@)).unwrap()].name,
        r.unwrap().new_average == Some(
            pre.tasks@[first_index(pre.tasks@, with_id(id)).unwrap()].hours_worked,
        ),
{
    lemma_first_index_meaning(pre.tasks@, with_id(id));
    lemma_first_index_meaning(pre.templates@, named(template@));
    let i = first_index(pre.tasks@, with_id(id)).unwrap();
    assert(completion_plan(pre.tasks@, id).is_ok());
    assert forall|j: int| 0 <= j < post.tasks@.len() && j != i implies !counts_for(
        #[trigger] post.tasks@[j],
        template@,
    ) by {
        if j < pre.tasks@.len() {
            assert(post.tasks@[j] == pre.tasks@[j]);
        }
    }
    lemma_mean_of_single(post.tasks@, template@, i);
}

/// A task that was saved is the task that a lookup by its id finds.
pub proof fn lemma_saved_task_is_found(before: Seq<Task>, after: Seq<Task>, task: Task)
    requires
        match first_index(before, with_id(task.id)) {
            Some(i) => after == before.update(i, task),
            None => after == before.push(task),
        },
    ensures
        first_index(after, with_id(task.id)).is_some(),
        after[first_index(after, with_id(task.id)).unwrap()] == task,
{
    lemma_first_index_meaning(before, with_id(task.id));
    match first_index(before, with_id(task.id)) {
        Some(i) => {
            assert forall|j: int| 0 <= j < i implies !with_id(task.id)(#[trigger] after[j]) by {
                assert(after[j] == before[j]);
            }
            lemma_first_index(after, with_id(task.id), i);
        },
        None => {
            assert forall|j: int| 0 <= j < before.len() implies !with_id(task.id)(
                #[trigger] after[j],
            ) by {
                assert(after[j] == before[j]);
            }
            lemma_first_index(after, with_id(task.id), before.len() as int);
        },
    }
}

/// An archive run loses no task: what it moves and what it leaves are, in
/// number, the tasks that were there, and it moves completed tasks only.
pub proof fn lemma_archive_conserves_tasks(tasks: Seq<Task>, only: Option<u64>)
    ensures
        tasks.filter(archivable(only)).len() + tasks.filter(not_archivable(only)).len()
            == tasks.len(),
        forall|i: int|
            0 <= i < tasks.filter(archivable(only)).len() ==> (#[trigger] tasks.filter(
                archivable(only),
            )[i]).completed,
    decreases tasks.len(),
{
    if tasks.len() == 0 {
        tasks.lemma_filter_len(archivable(only));
        tasks.lemma_filter_len(not_archivable(only));
    } else {
        let front = tasks.drop_last();
        lemma_archive_conserves_tasks(front, only);
        front.lemma_filter_push(tasks.last(), archivable(only));
        front.lemma_filter_push(tasks.last(), not_archivable(only));
        assert(front.push(tasks.last()) =~= tasks);
    }
    assert forall|i: int| 0 <= i < tasks.filter(archivable(only)).len() implies (
    #[trigger] tasks.filter(archivable(only))[i]).completed by {
        tasks.lemma_filter_pred(archivable(only), i);
    }
}

} // verus!
