//! The task lifecycle: add, complete, edit, log, estimate, remove, archive.

use vstd::prelude::*;
use crate::dates::{
    clock_timestamp, date_of_day_number, get_next_recurrence, next_due, parse_date,
    parsed_day_number,
};
use crate::models::{Date, Error, Hours, Task, Template, copy_text, HUNDREDTHS_PER_HOUR};
use crate::store::{
    Store, find_task, find_template, first_index, highest_id, ids_unique,
    lemma_filter_ids_unique, lemma_filter_tasks_wf, lemma_first_index_meaning,
    lemma_max_id_bounds, max_id, named, tasks_wf, with_id,
};
use crate::templates::{
    create_template_if_missing, learned_average, lemma_all_kept, recalculate_template_average,
    with_average, with_template,
};

verus! {

/// The estimate of a task that was given none: one hour.
pub open spec fn default_hours() -> Hours {
    Hours { hundredths: HUNDREDTHS_PER_HOUR }
}

/// The project of a new task: the one given, else the default of the
/// template it names, if that template is there.
pub open spec fn resolved_project(
    templates: Seq<Template>,
    project: Option<String>,
    template_name: Option<String>,
) -> Option<String> {
    match template_name {
        Some(n) => match first_index(templates, named(n@)) {
            Some(k) => if project.is_none() {
                templates[k].project
            } else {
                project
            },
            None => project,
        },
        None => project,
    }
}

/// The estimate of a new task before it is held to zero or more: the one
/// given, else the default of the template it names, else one hour.
pub open spec fn resolved_hours(
    templates: Seq<Template>,
    hours: Option<Hours>,
    template_name: Option<String>,
) -> Hours {
    match hours {
        Some(h) => h,
        None => match template_name {
            Some(n) => match first_index(templates, named(n@)) {
                Some(k) => templates[k].default_hours,
                None => default_hours(),
            },
            None => default_hours(),
        },
    }
}

/// The templates after a task was added: a template name that was not
/// there gets a template with the given project and estimate.
pub open spec fn templates_after_add(
    templates: Seq<Template>,
    project: Option<String>,
    hours: Option<Hours>,
    template_name: Option<String>,
) -> Seq<Template> {
    match template_name {
        Some(n) => with_template(
            templates,
            n,
            project,
            match hours {
                Some(h) => h,
                None => default_hours(),
            },
        ),
        None => templates,
    }
}

/// A pending task with nothing logged on it.
pub open spec fn fresh_task(
    id: u64,
    name: String,
    project: Option<String>,
    expected_hours: Hours,
    due_date: Date,
    now: String,
    template: Option<String>,
    recurrence: Option<String>,
) -> Task {
    Task {
        id,
        name,
        project,
        expected_hours,
        due_date,
        created_at: now,
        completed: false,
        completed_at: None,
        hours_worked: Hours { hundredths: 0 },
        template,
        recurrence,
    }
}

/// An estimate held to zero or more.
pub open spec fn at_least_zero(h: Hours) -> Hours {
    if h.hundredths < 0 {
        Hours { hundredths: 0 }
    } else {
        h
    }
}

/// What adding a task at the moment `now` does to a store, and what it
/// returns.  The task gets the id after the largest in use and goes to the
/// end.  Where that id does not fit in `u64`, nothing changes.
pub open spec fn task_added(
    pre: Store,
    post: Store,
    r: Result<u64, Error>,
    name: String,
    project: Option<String>,
    hours: Option<Hours>,
    due_date: Date,
    template_name: Option<String>,
    recur: Option<String>,
    now: String,
) -> bool {
    &&& post.archive@ == pre.archive@
    &&& if max_id(pre.tasks@) < u64::MAX {
        &&& r == Ok::<u64, Error>((max_id(pre.tasks@) + 1) as u64)
        &&& post.templates@ == templates_after_add(pre.templates@, project, hours, template_name)
        &&& post.tasks@ == pre.tasks@.push(
            fresh_task(
                (max_id(pre.tasks@) + 1) as u64,
                name,
                resolved_project(pre.templates@, project, template_name),
                at_least_zero(resolved_hours(pre.templates@, hours, template_name)),
                due_date,
                now,
                template_name,
                recur,
            ),
        )
    } else {
        &&& r == Err::<u64, Error>(Error::OutOfRange)
        &&& post.templates@ == pre.templates@
        &&& post.tasks@ == pre.tasks@
    }
}

/// Adds a task that is due on `due_date` and was created at `now`.
///
/// A field that is not given is taken from the template the task names; a
/// template name that is not there yet gets a template with the given
/// project and estimate.
pub fn add_task(
    store: &mut Store,
    name: String,
    project: Option<String>,
    hours: Option<Hours>,
    due_date: Date,
    template_name: Option<String>,
    recur: Option<String>,
    now: String,
) -> (r: Result<u64, Error>)
    ensures
        task_added(
            *old(store),
            *final(store),
            r,
            name,
            project,
            hours,
            due_date,
            template_name,
            recur,
            now,
        ),
        old(store).wf() ==> final(store).wf(),
{
    let top = highest_id(&store.tasks);
    if top == u64::MAX {
        return Err(Error::OutOfRange);
    }
    proof {
        lemma_max_id_bounds(store.tasks@);
    }
    let mut final_project = copy_text(&project);
    let mut final_hours = match hours {
        Some(h) => h,
        None => Hours::from_hundredths(HUNDREDTHS_PER_HOUR),
    };
    match &template_name {
        Some(n) => {
            match find_template(&store.templates, n.as_str()) {
                Some(k) => {
                    if project.is_none() {
                        final_project = copy_text(&store.templates[k].project);
                    }
                    if hours.is_none() {
                        final_hours = store.templates[k].default_hours;
                    }
                },
                None => {
                    create_template_if_missing(store, n.clone(), project, final_hours);
                },
            }
        },
        None => {},
    }
    let id = top + 1;
    store.tasks.push(
        Task {
            id,
            name,
            project: final_project,
            expected_hours: final_hours.at_least_zero(),
            due_date,
            created_at: now,
            completed: false,
            completed_at: None,
            hours_worked: Hours::zero(),
            template: template_name,
            recurrence: recur,
        },
    );
    Ok(id)
}

/// What adding a task with a written due date does to a store, and what it
/// returns: `InvalidDate` and no change where the text is no date written
/// as `YYYY-MM-DD`, else what [`task_added`] says for that date and some
/// moment.
pub open spec fn add_requested(
    pre: Store,
    post: Store,
    r: Result<u64, Error>,
    name: String,
    project: Option<String>,
    hours: Option<Hours>,
    due: Seq<char>,
    template_name: Option<String>,
    recur: Option<String>,
) -> bool {
    match date_of_day_number(parsed_day_number(due)) {
        Ok(due_date) => exists|now: String|
            task_added(pre, post, r, name, project, hours, due_date, template_name, recur, now),
        Err(_) => r == Err::<u64, Error>(Error::InvalidDate) && post == pre,
    }
}

/// Adds a task whose due date is written as `YYYY-MM-DD`, created at the
/// moment of the call.
///
/// Fails with `InvalidDate`, and changes nothing, where the text is no such
/// date; otherwise does what [`add_task`] does for that date and some
/// moment.
pub fn cmd_add(
    store: &mut Store,
    name: String,
    project: Option<String>,
    hours: Option<Hours>,
    due: String,
    template_name: Option<String>,
    recur: Option<String>,
) -> (r: Result<u64, Error>)
    ensures
        add_requested(
            *old(store),
            *final(store),
            r,
            name,
            project,
            hours,
            due@,
            template_name,
            recur,
        ),
        old(store).wf() ==> final(store).wf(),
{
    match parse_date(due.as_str()) {
        Err(_) => Err(Error::InvalidDate),
        Ok(due_date) => {
            let now = clock_timestamp();
            add_task(store, name, project, hours, due_date, template_name, recur, now)
        },
    }
}

/// What completing a task reports.
#[derive(Clone, Copy, Debug, PartialEq, Eq, Structural)]
pub struct Completion {
    /// The id of the next occurrence, where the task recurs.
    pub spawned: Option<u64>,
    /// The task names a recurrence pattern that is not known; it was
    /// completed all the same, without a next occurrence.
    pub unknown_recurrence: bool,
    /// The estimate that the task's template learned from the completion.
    pub new_average: Option<Hours>,
}

/// The task once it is completed at `now`.  A completion time that is
/// already there stays.
pub open spec fn completed_copy(t: Task, now: String) -> Task {
    Task {
        completed: true,
        completed_at: if t.completed_at.is_some() {
            t.completed_at
        } else {
            Some(now)
        },
        ..t
    }
}

/// The next occurrence of a recurring task: pending, nothing logged, with
/// the name, project, estimate, template and recurrence of the task.
pub open spec fn successor(t: Task, id: u64, due: Date, now: String) -> Task {
    fresh_task(id, t.name, t.project, t.expected_hours, due, now, t.template, t.recurrence)
}

/// Where the task to complete stands and when its next occurrence is due,
/// or why it cannot be completed: `NotFound` without a task of that id,
/// `OutOfRange` where the next occurrence needs a day outside the calendar
/// or an id above `u64::MAX`.
pub open spec fn completion_plan(tasks: Seq<Task>, id: u64) -> Result<(int, Option<Date>), Error> {
    match first_index(tasks, with_id(id)) {
        None => Err(Error::NotFound),
        Some(i) => match tasks[i].recurrence {
            None => Ok((i, None)),
            Some(recur) => match next_due(recur@, tasks[i].due_date) {
                Err(_) => Err(Error::OutOfRange),
                Ok(None) => Ok((i, None)),
                Ok(Some(d)) => if max_id(tasks) < u64::MAX {
                    Ok((i, Some(d)))
                } else {
                    Err(Error::OutOfRange)
                },
            },
        },
    }
}

/// The tasks after the task `id` was completed at `now`: the task is marked,
/// and its next occurrence, if it has one, stands at the end under the id
/// after the largest in use.
pub open spec fn tasks_after_complete(tasks: Seq<Task>, id: u64, now: String) -> Seq<Task> {
    match completion_plan(tasks, id) {
        Err(_) => tasks,
        Ok((i, due)) => {
            let marked = tasks.update(i, completed_copy(tasks[i], now));
            match due {
                Some(d) => marked.push(successor(tasks[i], (max_id(tasks) + 1) as u64, d, now)),
                None => marked,
            }
        },
    }
}

/// The templates after the task `id` was completed at `now`: the template
/// that the task names learns its estimate from the tasks as they are after
/// the completion.
pub open spec fn templates_after_complete(
    templates: Seq<Template>,
    tasks: Seq<Task>,
    id: u64,
    now: String,
) -> Seq<Template> {
    match completion_plan(tasks, id) {
        Err(_) => templates,
        Ok((i, _)) => match tasks[i].template {
            Some(n) => with_average(templates, n@, tasks_after_complete(tasks, id, now)),
            None => templates,
        },
    }
}

/// What completing the task `id` at `now` reports.
pub open spec fn completion_report(
    templates: Seq<Template>,
    tasks: Seq<Task>,
    id: u64,
    now: String,
) -> Result<Completion, Error> {
    match completion_plan(tasks, id) {
        Err(e) => Err(e),
        Ok((i, due)) => Ok(
            Completion {
                spawned: if due.is_some() {
                    Some((max_id(tasks) + 1) as u64)
                } else {
                    None
                },
                unknown_recurrence: tasks[i].recurrence.is_some() && due.is_none(),
                new_average: match tasks[i].template {
                    Some(n) => learned_average(
                        templates,
                        n@,
                        tasks_after_complete(tasks, id, now),
                    ),
                    None => None,
                },
            },
        ),
    }
}

/// What completing the task `id` at the moment `now` does to a store, and
/// what it returns.
pub open spec fn task_completed(
    pre: Store,
    post: Store,
    r: Result<Completion, Error>,
    id: u64,
    now: String,
) -> bool {
    &&& r == completion_report(pre.templates@, pre.tasks@, id, now)
    &&& post.tasks@ == tasks_after_complete(pre.tasks@, id, now)
    &&& post.templates@ == templates_after_complete(pre.templates@, pre.tasks@, id, now)
    &&& post.archive@ == pre.archive@
}

/// Completes the first task with the given id at the moment `now`.
///
/// A task that recurs daily, weekly or monthly gets a next occurrence due
/// 1, 7 or 30 days later.  A template that the task names learns its
/// estimate anew.  On an error nothing changes.
pub fn complete_task(store: &mut Store, id: u64, now: String) -> (r: Result<Completion, Error>)
    ensures
        task_completed(*old(store), *final(store), r, id, now),
        old(store).wf() ==> final(store).wf(),
{
    let i = match find_task(&store.tasks, id) {
        None => {
            return Err(Error::NotFound);
        },
        Some(i) => i,
    };
    let mut due: Option<Date> = None;
    let mut unknown = false;
    match &store.tasks[i].recurrence {
        None => {},
        Some(recur) => match get_next_recurrence(recur.as_str(), store.tasks[i].due_date) {
            Err(_) => {
                return Err(Error::OutOfRange);
            },
            Ok(None) => {
                unknown = true;
            },
            Ok(Some(d)) => {
                due = Some(d);
            },
        },
    }
    let top = highest_id(&store.tasks);
    if due.is_some() && top == u64::MAX {
        return Err(Error::OutOfRange);
    }
    proof {
        lemma_max_id_bounds(store.tasks@);
    }
    let task_before = store.tasks[i].duplicate();
    let mut done = store.tasks[i].duplicate();
    done.completed = true;
    if done.completed_at.is_none() {
        done.completed_at = Some(now.clone());
    }
    store.tasks.set(i, done);
    let mut spawned: Option<u64> = None;
    match due {
        Some(d) => {
            store.tasks.push(
                Task {
                    id: top + 1,
                    name: task_before.name.clone(),
                    project: copy_text(&task_before.project),
                    expected_hours: task_before.expected_hours,
                    due_date: d,
                    created_at: now,
                    completed: false,
                    completed_at: None,
                    hours_worked: Hours::zero(),
                    template: copy_text(&task_before.template),
                    recurrence: copy_text(&task_before.recurrence),
                },
            );
            spawned = Some(top + 1);
        },
        None => {},
    }
    let new_average = match &task_before.template {
        Some(n) => recalculate_template_average(store, n.as_str()),
        None => None,
    };
    Ok(Completion { spawned, unknown_recurrence: unknown, new_average })
}

/// What completing the task `id` does to a store, and what it returns:
/// what [`task_completed`] says for some moment.
pub open spec fn completion_requested(
    pre: Store,
    post: Store,
    r: Result<Completion, Error>,
    id: u64,
) -> bool {
    exists|now: String| task_completed(pre, post, r, id, now)
}

/// Completes the first task with the given id at the moment of the call:
/// what [`complete_task`] does for some moment.
pub fn cmd_complete(store: &mut Store, id: u64) -> (r: Result<Completion, Error>)
    ensures
        completion_requested(*old(store), *final(store), r, id),
        old(store).wf() ==> final(store).wf(),
{
    let now = clock_timestamp();
    complete_task(store, id, now)
}

/// The tasks whose id is not `id`.
pub open spec fn without_id(id: u64) -> spec_fn(Task) -> bool {
    |t: Task| t.id != id
}

/// What removing the tasks with the given id does to a store, and what it
/// returns: `NotFound` where there is none.
pub open spec fn task_removed(pre: Store, post: Store, r: Result<(), Error>, id: u64) -> bool {
    &&& r == (if first_index(pre.tasks@, with_id(id)).is_some() {
        Ok::<(), Error>(())
    } else {
        Err(Error::NotFound)
    })
    &&& post.tasks@ == pre.tasks@.filter(without_id(id))
    &&& post.templates@ == pre.templates@
    &&& post.archive@ == pre.archive@
}

/// Removes every task with the given id.  Fails with `NotFound` where there
/// is none.
pub fn cmd_remove(store: &mut Store, id: u64) -> (r: Result<(), Error>)
    ensures
        task_removed(*old(store), *final(store), r, id),
        r.is_err() ==> final(store).tasks@ == old(store).tasks@,
        old(store).wf() ==> final(store).wf(),
{
    let ghost before = store.tasks@;
    let mut kept: Vec<Task> = Vec::new();
    let mut i: usize = 0;
    while i < store.tasks.len()
        invariant
            i <= store.tasks.len(),
            store.tasks@ == before,
            store.templates@ == old(store).templates@,
            store.archive@ == old(store).archive@,
            kept@ == before.take(i as int).filter(without_id(id)),
            kept@.len() == i <==> forall|j: int|
                0 <= j < i ==> !with_id(id)(#[trigger] before[j]),
            kept@.len() <= i,
        decreases store.tasks.len() - i,
    {
        proof {
            before.lemma_take_succ_push(i as int);
            before.take(i as int).lemma_filter_push(before[i as int], without_id(id));
        }
        if store.tasks[i].id != id {
            kept.push(store.tasks[i].duplicate());
        }
        i = i + 1;
    }
    proof {
        assert(before.take(i as int) =~= before);
        if ids_unique(before) {
            lemma_filter_ids_unique(before, without_id(id));
        }
        if tasks_wf(before) {
            lemma_filter_tasks_wf(before, without_id(id));
        }
        lemma_first_index_meaning(before, with_id(id));
    }
    if kept.len() == store.tasks.len() {
        proof {
            lemma_all_kept(before, without_id(id));
        }
        return Err(Error::NotFound);
    }
    store.tasks = kept;
    Ok(())
}

/// A text field after an edit: the text given, else the one that was there.
pub open spec fn overwritten(given: Option<String>, held: Option<String>) -> Option<String> {
    if given.is_some() {
        given
    } else {
        held
    }
}

/// A task with the given fields written over it; a field that is not given
/// keeps its value.
pub open spec fn edited_task(
    t: Task,
    name: Option<String>,
    project: Option<String>,
    template_name: Option<String>,
    expected_hours: Option<Hours>,
    hours_worked: Option<Hours>,
    due: Option<Date>,
    recur: Option<String>,
) -> Task {
    Task {
        id: t.id,
        name: match name {
            Some(n) => n,
            None => t.name,
        },
        project: overwritten(project, t.project),
        expected_hours: match expected_hours {
            Some(h) => h,
            None => t.expected_hours,
        },
        due_date: match due {
            Some(d) => d,
            None => t.due_date,
        },
        created_at: t.created_at,
        completed: t.completed,
        completed_at: t.completed_at,
        hours_worked: match hours_worked {
            Some(h) => h,
            None => t.hours_worked,
        },
        template: overwritten(template_name, t.template),
        recurrence: overwritten(recur, t.recurrence),
    }
}

/// The templates after a task was edited: a template name that was given
/// and is not there yet gets a template with the project that the task has
/// after the edit and the estimate that it had before.
pub open spec fn templates_after_edit(
    templates: Seq<Template>,
    t: Task,
    project: Option<String>,
    template_name: Option<String>,
) -> Seq<Template> {
    match template_name {
        Some(n) => with_template(templates, n, overwritten(project, t.project), t.expected_hours),
        None => templates,
    }
}

/// What editing the first task with the given id does to a store, and what
/// it returns.
pub open spec fn task_edited(
    pre: Store,
    post: Store,
    r: Result<(), Error>,
    id: u64,
    name: Option<String>,
    project: Option<String>,
    template_name: Option<String>,
    expected_hours: Option<Hours>,
    hours_worked: Option<Hours>,
    due: Option<Date>,
    recur: Option<String>,
) -> bool {
    &&& post.archive@ == pre.archive@
    &&& match first_index(pre.tasks@, with_id(id)) {
        Some(i) => {
            &&& r == Ok::<(), Error>(())
            &&& post.tasks@ == pre.tasks@.update(
                i,
                edited_task(
                    pre.tasks@[i],
                    name,
                    project,
                    template_name,
                    expected_hours,
                    hours_worked,
                    due,
                    recur,
                ),
            )
            &&& post.templates@ == templates_after_edit(
                pre.templates@,
                pre.tasks@[i],
                project,
                template_name,
            )
        },
        None => {
            &&& r == Err::<(), Error>(Error::NotFound)
            &&& post.tasks@ == pre.tasks@
            &&& post.templates@ == pre.templates@
        },
    }
}

/// Writes the given fields over the first task with the given id.  Fails
/// with `NotFound`, and changes nothing, where there is no such task.
pub fn edit_task(
    store: &mut Store,
    id: u64,
    name: Option<String>,
    project: Option<String>,
    template_name: Option<String>,
    expected_hours: Option<Hours>,
    hours_worked: Option<Hours>,
    due: Option<Date>,
    recur: Option<String>,
) -> (r: Result<(), Error>)
    ensures
        task_edited(
            *old(store),
            *final(store),
            r,
            id,
            name,
            project,
            template_name,
            expected_hours,
            hours_worked,
            due,
            recur,
        ),
        old(store).wf() ==> final(store).wf(),
{
    let i = match find_task(&store.tasks, id) {
        None => {
            return Err(Error::NotFound);
        },
        Some(i) => i,
    };
    let mut task = store.tasks[i].duplicate();
    let estimate_before = task.expected_hours;
    match name {
        Some(n) => {
            task.name = n;
        },
        None => {},
    }
    if project.is_some() {
        task.project = project;
    }
    match &template_name {
        Some(n) => {
            create_template_if_missing(
                store,
                n.clone(),
                copy_text(&task.project),
                estimate_before,
            );
        },
        None => {},
    }
    if template_name.is_some() {
        task.template = template_name;
    }
    match expected_hours {
        Some(h) => {
            task.expected_hours = h;
        },
        None => {},
    }
    match hours_worked {
        Some(h) => {
            task.hours_worked = h;
        },
        None => {},
    }
    if recur.is_some() {
        task.recurrence = recur;
    }
    match due {
        Some(d) => {
            task.due_date = d;
        },
        None => {},
    }
    store.tasks.set(i, task);
    Ok(())
}

/// The due date that an edit asks for: none where no text is given,
/// `InvalidDate` where the text is no date written as `YYYY-MM-DD`.
pub open spec fn requested_due(due: Option<String>) -> Result<Option<Date>, Error> {
    match due {
        None => Ok(None),
        Some(text) => match date_of_day_number(parsed_day_number(text@)) {
            Ok(d) => Ok(Some(d)),
            Err(_) => Err(Error::InvalidDate),
        },
    }
}

/// What an edit with a written due date does to a store, and what it
/// returns: `NotFound` without a task of that id, `InvalidDate` where the
/// text is no date, either way without a change; else what [`task_edited`]
/// says.
pub open spec fn edit_requested(
    pre: Store,
    post: Store,
    r: Result<(), Error>,
    id: u64,
    name: Option<String>,
    project: Option<String>,
    template_name: Option<String>,
    expected_hours: Option<Hours>,
    hours_worked: Option<Hours>,
    due: Option<String>,
    recur: Option<String>,
) -> bool {
    match requested_due(due) {
        Ok(d) => task_edited(
            pre,
            post,
            r,
            id,
            name,
            project,
            template_name,
            expected_hours,
            hours_worked,
            d,
            recur,
        ),
        Err(_) => post == pre && r == (if first_index(pre.tasks@, with_id(id)).is_some() {
            Err::<(), Error>(Error::InvalidDate)
        } else {
            Err(Error::NotFound)
        }),
    }
}

/// Writes the given fields over the first task with the given id; the due
/// date is written as `YYYY-MM-DD`.
///
/// Fails with `NotFound` where there is no such task, and with
/// `InvalidDate` where the due date is no such date; either way nothing
/// changes.  Otherwise does what [`edit_task`] does.
pub fn cmd_edit(
    store: &mut Store,
    id: u64,
    name: Option<String>,
    project: Option<String>,
    template_name: Option<String>,
    expected_hours: Option<Hours>,
    hours_worked: Option<Hours>,
    due: Option<String>,
    recur: Option<String>,
) -> (r: Result<(), Error>)
    ensures
        edit_requested(
            *old(store),
            *final(store),
            r,
            id,
            name,
            project,
            template_name,
            expected_hours,
            hours_worked,
            due,
            recur,
        ),
        old(store).wf() ==> final(store).wf(),
{
    let due_date = match &due {
        None => None,
        Some(text) => match parse_date(text.as_str()) {
            Ok(d) => Some(d),
            Err(_) => {
                return match find_task(&store.tasks, id) {
                    Some(_) => Err(Error::InvalidDate),
                    None => Err(Error::NotFound),
                };
            },
        },
    };
    edit_task(
        store,
        id,
        name,
        project,
        template_name,
        expected_hours,
        hours_worked,
        due_date,
        recur,
    )
}

/// The effort logged on a task after `hours` more were logged.
pub open spec fn logged(t: Task, hours: Hours) -> Task {
    Task {
        hours_worked: Hours {
            hundredths: crate::models::clamp_hundredths(
                t.hours_worked.hundredths + hours.hundredths,
            ) as i64,
        },
        ..t
    }
}

/// What logging `hours` on the task `id` does to a store, and what it
/// returns.
pub open spec fn hours_logged(pre: Store, post: Store, r: Result<(), Error>, id: u64, hours: Hours)
    -> bool {
    &&& match first_index(pre.tasks@, with_id(id)) {
        Some(i) => r == Ok::<(), Error>(()) && post.tasks@ == pre.tasks@.update(
            i,
            logged(pre.tasks@[i], hours),
        ),
        None => r == Err::<(), Error>(Error::NotFound) && post.tasks@ == pre.tasks@,
    }
    &&& post.templates@ == pre.templates@
    &&& post.archive@ == pre.archive@
}

/// Adds `hours` to the effort logged on the first task with the given id.
/// The amount may be zero or negative.  Fails with `NotFound`, and changes
/// nothing, where there is no such task.
pub fn cmd_log(store: &mut Store, id: u64, hours: Hours) -> (r: Result<(), Error>)
    ensures
        hours_logged(*old(store), *final(store), r, id, hours),
        old(store).wf() ==> final(store).wf(),
{
    match find_task(&store.tasks, id) {
        None => Err(Error::NotFound),
        Some(i) => {
            let mut task = store.tasks[i].duplicate();
            task.hours_worked = task.hours_worked.plus(hours);
            store.tasks.set(i, task);
            Ok(())
        },
    }
}

/// The estimate of a task after it was told how much is left to do: the
/// effort logged so far and the remainder.
pub open spec fn estimated(t: Task, remaining: Hours) -> Task {
    Task {
        expected_hours: Hours {
            hundredths: crate::models::clamp_hundredths(
                t.hours_worked.hundredths + remaining.hundredths,
            ) as i64,
        },
        ..t
    }
}

/// What estimating the task `id` anew does to a store, and what it returns.
pub open spec fn estimate_set(
    pre: Store,
    post: Store,
    r: Result<Hours, Error>,
    id: u64,
    remaining: Hours,
) -> bool {
    &&& match first_index(pre.tasks@, with_id(id)) {
        Some(i) => r == Ok::<Hours, Error>(estimated(pre.tasks@[i], remaining).expected_hours)
            && post.tasks@ == pre.tasks@.update(i, estimated(pre.tasks@[i], remaining)),
        None => r == Err::<Hours, Error>(Error::NotFound) && post.tasks@ == pre.tasks@,
    }
    &&& post.templates@ == pre.templates@
    &&& post.archive@ == pre.archive@
}

/// Sets the estimate of the first task with the given id to the effort
/// logged so far and `remaining`, and returns the new estimate.  Fails with
/// `NotFound`, and changes nothing, where there is no such task.
pub fn cmd_estimate(store: &mut Store, id: u64, remaining: Hours) -> (r: Result<Hours, Error>)
    ensures
        estimate_set(*old(store), *final(store), r, id, remaining),
        old(store).wf() ==> final(store).wf(),
{
    match find_task(&store.tasks, id) {
        None => Err(Error::NotFound),
        Some(i) => {
            let mut task = store.tasks[i].duplicate();
            let total = task.hours_worked.plus(remaining);
            task.expected_hours = total;
            store.tasks.set(i, task);
            Ok(total)
        },
    }
}

/// The tasks that an archive run takes: the completed ones, and of those
/// only the one with the given id where an id is given.
pub open spec fn archivable(only: Option<u64>) -> spec_fn(Task) -> bool {
    |t: Task|
        t.completed && match only {
            Some(id) => t.id == id,
            None => true,
        }
}

/// The tasks that an archive run leaves in place.
pub open spec fn not_archivable(only: Option<u64>) -> spec_fn(Task) -> bool {
    |t: Task| !archivable(only)(t)
}

/// Moves the completed tasks to the end of the archive, in their order, and
/// returns how many it moved.  With an id, only the completed tasks of that
/// id move.
pub fn cmd_archive(store: &mut Store, only: Option<u64>) -> (moved: usize)
    ensures
        final(store).tasks@ == old(store).tasks@.filter(not_archivable(only)),
        final(store).archive@ == old(store).archive@ + old(store).tasks@.filter(
            archivable(only),
        ),
        moved == old(store).tasks@.filter(archivable(only)).len(),
        final(store).templates@ == old(store).templates@,
        old(store).wf() ==> final(store).wf(),
{
    let ghost before = store.tasks@;
    let ghost archive_before = store.archive@;
    let mut kept: Vec<Task> = Vec::new();
    let mut moved: usize = 0;
    let mut i: usize = 0;
    while i < store.tasks.len()
        invariant
            i <= store.tasks.len(),
            store.tasks@ == before,
            store.templates@ == old(store).templates@,
            kept@ == before.take(i as int).filter(not_archivable(only)),
            store.archive@ == archive_before + before.take(i as int).filter(archivable(only)),
            moved == before.take(i as int).filter(archivable(only)).len(),
            moved <= i,
        decreases store.tasks.len() - i,
    {
        proof {
            before.lemma_take_succ_push(i as int);
            before.take(i as int).lemma_filter_push(before[i as int], not_archivable(only));
            before.take(i as int).lemma_filter_push(before[i as int], archivable(only));
        }
        let takes = store.tasks[i].completed && match only {
            Some(id) => store.tasks[i].id == id,
            None => true,
        };
        if takes {
            let task = store.tasks[i].duplicate();
            store.archive.push(task);
            moved = moved + 1;
            proof {
                assert(store.archive@ =~= archive_before + before.take(i + 1).filter(
                    archivable(only),
                ));
            }
        } else {
            kept.push(store.tasks[i].duplicate());
        }
        i = i + 1;
    }
    proof {
        assert(before.take(i as int) =~= before);
        if ids_unique(before) {
            lemma_filter_ids_unique(before, not_archivable(only));
        }
        if tasks_wf(before) {
            lemma_filter_tasks_wf(before, not_archivable(only));
        }
    }
    store.tasks = kept;
    moved
}

} // verus!
