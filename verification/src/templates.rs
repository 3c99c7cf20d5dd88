//! Templates: defaults for tasks of one kind, and the estimate they learn
//! from completed tasks.

use vstd::prelude::*;
use crate::models::{Error, Hours, Task, Template};
use crate::store::{
    Store, find_template, first_index, ids_unique, lemma_filter_names_unique,
    lemma_first_index_meaning, named, names_unique, tasks_wf,
};
use crate::text::same_text;

verus! {

/// Whether a task counts towards the learned estimate of the template
/// `name`: it is completed and names that template.
pub open spec fn counts_for(t: Task, name: Seq<char>) -> bool {
    t.completed && t.uses_template(name)
}

/// The effort logged on the completed tasks that name the template, in
/// hundredths of an hour.
pub open spec fn worked_total(tasks: Seq<Task>, name: Seq<char>) -> int
    decreases tasks.len(),
{
    if tasks.len() == 0 {
        0
    } else {
        worked_total(tasks.drop_last(), name) + if counts_for(tasks.last(), name) {
            tasks.last().hours_worked.hundredths as int
        } else {
            0
        }
    }
}

/// The number of completed tasks that name the template.
pub open spec fn worked_count(tasks: Seq<Task>, name: Seq<char>) -> int
    decreases tasks.len(),
{
    if tasks.len() == 0 {
        0
    } else {
        worked_count(tasks.drop_last(), name) + if counts_for(tasks.last(), name) {
            1int
        } else {
            0
        }
    }
}

/// The mean effort of the completed tasks that name the template, rounded
/// down to a hundredth of an hour; `None` where there is no such task.
pub open spec fn template_mean(tasks: Seq<Task>, name: Seq<char>) -> Option<Hours> {
    if worked_count(tasks, name) == 0 {
        None
    } else {
        Some(Hours { hundredths: (worked_total(tasks, name) / worked_count(tasks, name)) as i64 })
    }
}

/// The total lies between the least and the greatest amount, taken as often
/// as there are tasks that count.
pub proof fn lemma_worked_bounds(tasks: Seq<Task>, name: Seq<char>)
    ensures
        0 <= worked_count(tasks, name) <= tasks.len(),
        worked_count(tasks, name) * i64::MIN <= worked_total(tasks, name) <= worked_count(
            tasks,
            name,
        ) * i64::MAX,
    decreases tasks.len(),
{
    if tasks.len() > 0 {
        lemma_worked_bounds(tasks.drop_last(), name);
    }
}

/// A mean of amounts that fit in `i64` fits in `i64`.
pub proof fn lemma_mean_fits(total: int, count: int)
    requires
        count > 0,
        count * i64::MIN <= total <= count * i64::MAX,
    ensures
        i64::MIN <= total / count <= i64::MAX,
{
    assert(i64::MIN <= total / count <= i64::MAX) by (nonlinear_arith)
        requires
            count > 0,
            count * i64::MIN <= total <= count * i64::MAX,
    ;
}

/// Rounding a negative quotient down is rounding its opposite up.
pub proof fn lemma_floor_of_negative(total: int, count: int)
    requires
        total < 0,
        count > 0,
    ensures
        total / count == -((-total + count - 1) / count),
{
    let up = (-total + count - 1) / count;
    assert(up * count <= -total + count - 1 < (up + 1) * count) by (nonlinear_arith)
        requires
            count > 0,
            up == (-total + count - 1) / count,
    ;
    assert(total / count == -up) by (nonlinear_arith)
        requires
            count > 0,
            up * count <= -total + count - 1 < (up + 1) * count,
    ;
}

/// Where no task counts for a template, nothing is counted and nothing
/// summed.
pub proof fn lemma_nothing_counts(tasks: Seq<Task>, name: Seq<char>)
    requires
        forall|j: int| 0 <= j < tasks.len() ==> !counts_for(#[trigger] tasks[j], name),
    ensures
        worked_count(tasks, name) == 0,
        worked_total(tasks, name) == 0,
    decreases tasks.len(),
{
    if tasks.len() > 0 {
        assert forall|j: int| 0 <= j < tasks.drop_last().len() implies !counts_for(
            #[trigger] tasks.drop_last()[j],
            name,
        ) by {
            assert(tasks.drop_last()[j] == tasks[j]);
        }
        lemma_nothing_counts(tasks.drop_last(), name);
    }
}

/// Where a single task counts for a template, the mean is the effort logged
/// on that task.
pub proof fn lemma_mean_of_single(tasks: Seq<Task>, name: Seq<char>, i: int)
    requires
        0 <= i < tasks.len(),
        counts_for(tasks[i], name),
        forall|j: int| 0 <= j < tasks.len() && j != i ==> !counts_for(#[trigger] tasks[j], name),
    ensures
        worked_count(tasks, name) == 1,
        worked_total(tasks, name) == tasks[i].hours_worked.hundredths,
        template_mean(tasks, name) == Some(tasks[i].hours_worked),
    decreases tasks.len(),
{
    let front = tasks.drop_last();
    assert forall|j: int| 0 <= j < front.len() && j != i implies !counts_for(
        #[trigger] front[j],
        name,
    ) by {
        assert(front[j] == tasks[j]);
    }
    if i == tasks.len() - 1 {
        lemma_nothing_counts(front, name);
    } else {
        assert(front[i] == tasks[i]);
        lemma_mean_of_single(front, name, i);
    }
}

/// Whether the task names `name` as the template it came from.
pub fn task_uses(t: &Task, name: &str) -> (r: bool)
    ensures
        r == t.uses_template(name@),
{
    match &t.template {
        Some(s) => same_text(s.as_str(), name),
        None => false,
    }
}

/// The mean effort of the completed tasks that name the template, rounded
/// down to a hundredth of an hour.
pub fn mean_worked(tasks: &Vec<Task>, name: &str) -> (r: Option<Hours>)
    ensures
        r == template_mean(tasks@, name@),
{
    let mut total: i128 = 0;
    let mut count: u64 = 0;
    let mut i: usize = 0;
    while i < tasks.len()
        invariant
            i <= tasks.len(),
            total == worked_total(tasks@.take(i as int), name@),
            count == worked_count(tasks@.take(i as int), name@),
        decreases tasks.len() - i,
    {
        proof {
            assert(tasks@.take(i + 1).drop_last() =~= tasks@.take(i as int));
            lemma_worked_bounds(tasks@.take(i as int), name@);
            lemma_worked_bounds(tasks@.take(i + 1), name@);
        }
        if tasks[i].completed && task_uses(&tasks[i], name) {
            total = total + tasks[i].hours_worked.hundredths as i128;
            count = count + 1;
        }
        i = i + 1;
    }
    proof {
        assert(tasks@.take(i as int) =~= tasks@);
        lemma_worked_bounds(tasks@, name@);
    }
    if count == 0 {
        None
    } else {
        proof {
            lemma_mean_fits(total as int, count as int);
        }
        let n: u128 = count as u128;
        let floor: i128 = if total >= 0 {
            ((total as u128) / n) as i128
        } else {
            proof {
                lemma_floor_of_negative(total as int, count as int);
            }
            let up: u128 = ((-total) as u128 + (n - 1)) / n;
            -(up as i128)
        };
        Some(Hours { hundredths: floor as i64 })
    }
}

/// The templates once the named one has learned its estimate from the
/// tasks: the first template of that name takes the mean effort of the
/// completed tasks that name it.  Without such a template, or without such a
/// task, nothing changes.
pub open spec fn with_average(templates: Seq<Template>, name: Seq<char>, tasks: Seq<Task>) -> Seq<
    Template,
> {
    match (first_index(templates, named(name)), template_mean(tasks, name)) {
        (Some(k), Some(m)) => templates.update(k, Template { default_hours: m, ..templates[k] }),
        _ => templates,
    }
}

/// The estimate that `with_average` writes, if it writes one.
pub open spec fn learned_average(templates: Seq<Template>, name: Seq<char>, tasks: Seq<Task>)
    -> Option<Hours> {
    if first_index(templates, named(name)).is_some() {
        template_mean(tasks, name)
    } else {
        None
    }
}

/// Sets the estimate of the template `name` to the mean effort of the
/// completed tasks that name it, and returns the estimate it wrote.
pub fn recalculate_template_average(store: &mut Store, name: &str) -> (r: Option<Hours>)
    ensures
        final(store).templates@ == with_average(old(store).templates@, name@, old(store).tasks@),
        r == learned_average(old(store).templates@, name@, old(store).tasks@),
        final(store).tasks@ == old(store).tasks@,
        final(store).archive@ == old(store).archive@,
        old(store).wf() ==> final(store).wf(),
{
    match mean_worked(&store.tasks, name) {
        None => None,
        Some(mean) => match find_template(&store.templates, name) {
            None => None,
            Some(k) => {
                let mut updated = store.templates[k].duplicate();
                updated.default_hours = mean;
                store.templates.set(k, updated);
                Some(mean)
            },
        },
    }
}

/// The templates after `name` was asked for: a new template with the given
/// defaults at the end where none of that name was there.
pub open spec fn with_template(
    templates: Seq<Template>,
    name: String,
    project: Option<String>,
    hours: Hours,
) -> Seq<Template> {
    if first_index(templates, named(name@)).is_some() {
        templates
    } else {
        templates.push(Template { name, project, default_hours: hours })
    }
}

/// Makes the template `name` with the given defaults unless one of that
/// name is there, and says whether it made one.
pub fn create_template_if_missing(
    store: &mut Store,
    name: String,
    project: Option<String>,
    hours: Hours,
) -> (created: bool)
    ensures
        final(store).templates@ == with_template(old(store).templates@, name, project, hours),
        created == first_index(old(store).templates@, named(name@)).is_none(),
        final(store).tasks@ == old(store).tasks@,
        final(store).archive@ == old(store).archive@,
        old(store).wf() ==> final(store).wf(),
{
    match find_template(&store.templates, name.as_str()) {
        Some(_) => false,
        None => {
            store.templates.push(Template { name, project, default_hours: hours });
            true
        },
    }
}

/// What adding a template does to a store, and what it returns:
/// `AlreadyExists` and no change where a template of that name is there.
pub open spec fn template_added(
    pre: Store,
    post: Store,
    r: Result<(), Error>,
    name: String,
    project: Option<String>,
    hours: Hours,
) -> bool {
    &&& r == (if first_index(pre.templates@, named(name@)).is_some() {
        Err::<(), Error>(Error::AlreadyExists)
    } else {
        Ok(())
    })
    &&& post.templates@ == with_template(pre.templates@, name, project, hours)
    &&& post.tasks@ == pre.tasks@
    &&& post.archive@ == pre.archive@
}

/// Adds a template.  Fails with `AlreadyExists`, and changes nothing,
/// where a template of that name is there.
pub fn cmd_template_add(store: &mut Store, name: String, project: Option<String>, hours: Hours)
    -> (r: Result<(), Error>)
    ensures
        template_added(*old(store), *final(store), r, name, project, hours),
        old(store).wf() ==> final(store).wf(),
{
    if create_template_if_missing(store, name, project, hours) {
        Ok(())
    } else {
        Err(Error::AlreadyExists)
    }
}

/// A template with the given fields written over it; a field that is not
/// given keeps its value.
pub open spec fn edited_template(t: Template, project: Option<String>, hours: Option<Hours>)
    -> Template {
    Template {
        name: t.name,
        project: if project.is_some() {
            project
        } else {
            t.project
        },
        default_hours: match hours {
            Some(h) => h,
            None => t.default_hours,
        },
    }
}

/// Writes the given fields over the first template named `name`.  Fails
/// with `NotFound`, and changes nothing, where there is no such template.
pub fn cmd_template_edit(
    store: &mut Store,
    name: String,
    project: Option<String>,
    hours: Option<Hours>,
) -> (r: Result<(), Error>)
    ensures
        match first_index(old(store).templates@, named(name@)) {
            Some(k) => r == Ok::<(), Error>(()) && final(store).templates@ == old(
                store,
            ).templates@.update(k, edited_template(old(store).templates@[k], project, hours)),
            None => r == Err::<(), Error>(Error::NotFound) && final(store).templates@ == old(
                store,
            ).templates@,
        },
        final(store).tasks@ == old(store).tasks@,
        final(store).archive@ == old(store).archive@,
        old(store).wf() ==> final(store).wf(),
{
    match find_template(&store.templates, name.as_str()) {
        None => Err(Error::NotFound),
        Some(k) => {
            let mut updated = store.templates[k].duplicate();
            if project.is_some() {
                updated.project = project;
            }
            match hours {
                Some(h) => {
                    updated.default_hours = h;
                },
                None => {},
            }
            store.templates.set(k, updated);
            Ok(())
        },
    }
}

/// The templates that are not named `name`.
pub open spec fn not_named(name: Seq<char>) -> spec_fn(Template) -> bool {
    |t: Template| t.name@ != name
}

/// A task that no longer names `name` as its template; other tasks stay
/// as they are.
pub open spec fn detached(name: Seq<char>) -> spec_fn(Task) -> Task {
    |t: Task|
        if t.uses_template(name) {
            Task { template: None, ..t }
        } else {
            t
        }
}

/// What removing the templates named `name` does to a store, and what it
/// returns: `NotFound` and no change where there is none; else the
/// templates go, and no task names them any more.
pub open spec fn template_removed(pre: Store, post: Store, r: Result<(), Error>, name: Seq<char>)
    -> bool {
    &&& r == (if first_index(pre.templates@, named(name)).is_some() {
        Ok::<(), Error>(())
    } else {
        Err(Error::NotFound)
    })
    &&& post.templates@ == pre.templates@.filter(not_named(name))
    &&& r.is_ok() ==> post.tasks@ == pre.tasks@.map_values(detached(name))
    &&& r.is_err() ==> post.tasks@ == pre.tasks@
    &&& post.archive@ == pre.archive@
}

/// Removes every template named `name` and clears the reference on each
/// task that names it.  Fails with `NotFound`, and changes nothing, where
/// there is no such template.
pub fn cmd_template_remove(store: &mut Store, name: String) -> (r: Result<(), Error>)
    ensures
        template_removed(*old(store), *final(store), r, name@),
        r.is_err() ==> final(store).templates@ == old(store).templates@,
        old(store).wf() ==> final(store).wf(),
{
    let ghost before = store.templates@;
    let mut kept: Vec<Template> = Vec::new();
    let mut i: usize = 0;
    while i < store.templates.len()
        invariant
            i <= store.templates.len(),
            store.templates@ == before,
            store.tasks@ == old(store).tasks@,
            store.archive@ == old(store).archive@,
            kept@ == before.take(i as int).filter(not_named(name@)),
            kept@.len() == i <==> forall|j: int|
                0 <= j < i ==> !named(name@)(#[trigger] before[j]),
            kept@.len() <= i,
        decreases store.templates.len() - i,
    {
        proof {
            before.lemma_take_succ_push(i as int);
            before.take(i as int).lemma_filter_push(before[i as int], not_named(name@));
        }
        if !same_text(store.templates[i].name.as_str(), name.as_str()) {
            kept.push(store.templates[i].duplicate());
        }
        i = i + 1;
    }
    proof {
        assert(before.take(i as int) =~= before);
        if names_unique(before) {
            lemma_filter_names_unique(before, not_named(name@));
        }
        lemma_first_index_meaning(before, named(name@));
    }
    if kept.len() == store.templates.len() {
        proof {
            assert(kept@ =~= before) by {
                before.lemma_filter_len(not_named(name@));
                lemma_all_kept(before, not_named(name@));
            }
        }
        return Err(Error::NotFound);
    }
    store.templates = kept;
    let ghost tasks_before = store.tasks@;
    let mut j: usize = 0;
    while j < store.tasks.len()
        invariant
            j <= store.tasks.len(),
            store.tasks@.len() == tasks_before.len(),
            store.templates@ == before.filter(not_named(name@)),
            store.archive@ == old(store).archive@,
            forall|k: int| 0 <= k < j ==> store.tasks@[k] == detached(name@)(tasks_before[k]),
            forall|k: int| j <= k < tasks_before.len() ==> store.tasks@[k] == tasks_before[k],
        decreases store.tasks.len() - j,
    {
        if task_uses(&store.tasks[j], name.as_str()) {
            let mut cleared = store.tasks[j].duplicate();
            cleared.template = None;
            store.tasks.set(j, cleared);
        }
        j = j + 1;
    }
    proof {
        assert(store.tasks@ =~= tasks_before.map_values(detached(name@)));
        if old(store).wf() {
            assert(ids_unique(store.tasks@));
            assert(tasks_wf(store.tasks@));
        }
    }
    Ok(())
}

/// A filter that every item passes keeps the sequence as it is.
pub proof fn lemma_all_kept<A>(s: Seq<A>, p: spec_fn(A) -> bool)
    requires
        forall|j: int| 0 <= j < s.len() ==> p(#[trigger] s[j]),
    ensures
        s.filter(p) == s,
    decreases s.len(),
{
    if s.len() == 0 {
        s.lemma_filter_len(p);
        assert(s.filter(p) =~= s);
    } else {
        lemma_all_kept(s.drop_last(), p);
        s.drop_last().lemma_filter_push(s.last(), p);
        assert(s.drop_last().push(s.last()) =~= s);
    }
}

} // verus!
