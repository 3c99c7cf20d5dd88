//! The rows of the task table: flat, or grouped by project.

use vstd::prelude::*;
use crate::dashboard::{DisplayItem, Row};
use crate::models::Task;
use crate::text::{
    lemma_text_lt_total, lemma_text_lt_transitive, same_text, text_before, text_lt,
};

verus! {

/// Whether each name stands before the names after it.
pub open spec fn ascending(names: Seq<String>) -> bool {
    forall|i: int, j: int|
        0 <= i < j < names.len() ==> text_lt((#[trigger] names[i])@, (#[trigger] names[j])@)
}

/// Whether `name` is among the names.
pub open spec fn has_name(names: Seq<String>, name: Seq<char>) -> bool {
    exists|k: int| 0 <= k < names.len() && (#[trigger] names[k])@ == name
}

/// Whether one of the first `n` tasks belongs to the project `name`.
pub open spec fn has_project(tasks: Seq<Task>, n: int, name: Seq<char>) -> bool {
    exists|i: int| 0 <= i < n && in_group(Some(name))(#[trigger] tasks[i])
}

/// Whether `names` lists the projects of the first `n` tasks, each once, in
/// the order of the dictionary.
pub open spec fn lists_projects(names: Seq<String>, tasks: Seq<Task>, n: int) -> bool {
    &&& ascending(names)
    &&& forall|i: int|
        0 <= i < n && (#[trigger] tasks[i]).project.is_some() ==> has_name(
            names,
            tasks[i].project.unwrap()@,
        )
    &&& forall|k: int|
        0 <= k < names.len() ==> has_project(tasks, n, (#[trigger] names[k])@)
}

/// The tasks of one group: those of the project `key`, or those without a
/// project.
pub open spec fn in_group(key: Option<Seq<char>>) -> spec_fn(Task) -> bool {
    |t: Task|
        match (t.project, key) {
            (Some(p), Some(k)) => p@ == k,
            (None, None) => true,
            _ => false,
        }
}

/// The label over a group.
pub open spec fn group_label(key: Option<Seq<char>>) -> Seq<char> {
    match key {
        Some(k) => k,
        None => "No Project"@,
    }
}

/// A task as a row.
pub open spec fn task_row() -> spec_fn(Task) -> Row {
    |t: Task| Row::Task(t)
}

/// The rows of one group: nothing for a group without tasks; else a header
/// with the label and the number of tasks, and under it the tasks where the
/// group is open.
pub open spec fn group_rows(tasks: Seq<Task>, key: Option<Seq<char>>, expanded: Seq<String>)
    -> Seq<Row> {
    let members = tasks.filter(in_group(key));
    let header = seq![Row::Header(group_label(key), members.len())];
    if members.len() == 0 {
        Seq::empty()
    } else if has_name(expanded, group_label(key)) {
        header + members.map_values(task_row())
    } else {
        header
    }
}

/// The rows of the groups of the named projects, in the order of the names.
pub open spec fn named_group_rows(tasks: Seq<Task>, names: Seq<String>, expanded: Seq<String>)
    -> Seq<Row>
    decreases names.len(),
{
    if names.len() == 0 {
        Seq::empty()
    } else {
        named_group_rows(tasks, names.drop_last(), expanded) + group_rows(
            tasks,
            Some(names.last()@),
            expanded,
        )
    }
}

/// The rows of a table grouped by project: first the tasks without a
/// project, then the projects in the order of `names`.
pub open spec fn grouped_rows(tasks: Seq<Task>, names: Seq<String>, expanded: Seq<String>)
    -> Seq<Row> {
    group_rows(tasks, None, expanded) + named_group_rows(tasks, names, expanded)
}

/// The rows of a table that is not grouped: the tasks in their order.
pub open spec fn flat_rows(tasks: Seq<Task>) -> Seq<Row> {
    tasks.map_values(task_row())
}

/// The rows as contracts see them.
pub open spec fn rows_of(items: Seq<DisplayItem>) -> Seq<Row> {
    items.map_values(|d: DisplayItem| d@)
}

/// Whether `name` is among the names.
pub fn contains_name(names: &Vec<String>, name: &str) -> (r: bool)
    ensures
        r == has_name(names@, name@),
{
    let mut i: usize = 0;
    while i < names.len()
        invariant
            i <= names.len(),
            forall|k: int| 0 <= k < i ==> (#[trigger] names@[k])@ != name@,
        decreases names.len() - i,
    {
        if same_text(names[i].as_str(), name) {
            return true;
        }
        i = i + 1;
    }
    false
}

/// The projects of the tasks, each once, in the order of the dictionary.
pub fn project_names(tasks: &Vec<Task>) -> (names: Vec<String>)
    ensures
        lists_projects(names@, tasks@, tasks@.len() as int),
{
    let mut names: Vec<String> = Vec::new();
    let mut i: usize = 0;
    while i < tasks.len()
        invariant
            i <= tasks.len(),
            lists_projects(names@, tasks@, i as int),
        decreases tasks.len() - i,
    {
        let ghost before = names@;
        match &tasks[i].project {
            None => {},
            Some(p) => {
                let mut pos: usize = 0;
                while pos < names.len() && text_before(names[pos].as_str(), p.as_str())
                    invariant
                        pos <= names.len(),
                        names@ == before,
                        forall|k: int| 0 <= k < pos ==> text_lt((#[trigger] names@[k])@, p@),
                    decreases names.len() - pos,
                {
                    pos = pos + 1;
                }
                let there = pos < names.len() && same_text(names[pos].as_str(), p.as_str());
                if !there {
                    names.insert(pos, p.clone());
                    proof {
                        let after = names@;
                        assert forall|a: int, b: int| 0 <= a < b < after.len() implies text_lt(
                            (#[trigger] after[a])@,
                            (#[trigger] after[b])@,
                        ) by {
                            if b < pos {
                                assert(after[a] == before[a] && after[b] == before[b]);
                            } else if b == pos {
                                assert(after[a] == before[a]);
                            } else if a < pos {
                                assert(after[a] == before[a] && after[b] == before[b - 1]);
                            } else if a == pos {
                                lemma_text_lt_total(before[pos as int]@, p@);
                                assert(text_lt(p@, before[pos as int]@));
                                if b - 1 > pos {
                                    assert(text_lt(before[pos as int]@, before[b - 1]@));
                                    lemma_text_lt_transitive(
                                        p@,
                                        before[pos as int]@,
                                        before[b - 1]@,
                                    );
                                }
                            } else {
                                assert(after[a] == before[a - 1] && after[b] == before[b - 1]);
                            }
                        }
                        assert forall|k: int| 0 <= k < before.len() implies has_name(
                            after,
                            (#[trigger] before[k])@,
                        ) by {
                            if k < pos {
                                assert(after[k] == before[k]);
                            } else {
                                assert(after[k + 1] == before[k]);
                            }
                        }
                        assert(after[pos as int]@ == p@);
                    }
                }
                proof {
                    assert(has_name(names@, p@)) by {
                        if there {
                            assert(names@[pos as int]@ == p@);
                        } else {
                            assert(names@[pos as int]@ == p@);
                        }
                    }
                    assert(in_group(Some(p@))(tasks@[i as int]));
                }
            },
        }
        proof {
            let after = names@;
            assert forall|k: int| 0 <= k < before.len() implies has_name(
                after,
                (#[trigger] before[k])@,
            ) by {
                if after == before {
                    assert(after[k] == before[k]);
                }
            }
            assert forall|j: int|
                0 <= j < i + 1 && (#[trigger] tasks@[j]).project.is_some() implies has_name(
                after,
                tasks@[j].project.unwrap()@,
            ) by {
                if j < i {
                    let q = tasks@[j].project.unwrap()@;
                    assert(has_name(before, q));
                    let k = choose|k: int| 0 <= k < before.len() && (#[trigger] before[k])@ == q;
                    assert(has_name(after, before[k]@));
                }
            }
            assert forall|k: int| 0 <= k < after.len() implies has_project(
                tasks@,
                i + 1,
                (#[trigger] after[k])@,
            ) by {
                if has_name(before, after[k]@) {
                    let m = choose|m: int|
                        0 <= m < before.len() && (#[trigger] before[m])@ == after[k]@;
                    assert(has_project(tasks@, i as int, before[m]@));
                    let w = choose|w: int|
                        0 <= w < i && in_group(Some(before[m]@))(#[trigger] tasks@[w]);
                    assert(in_group(Some(after[k]@))(tasks@[w]));
                } else {
                    assert(in_group(Some(after[k]@))(tasks@[i as int]));
                }
            }
        }
        i = i + 1;
    }
    names
}

/// The key of a group as contracts see it.
pub open spec fn key_of(key: Option<&str>) -> Option<Seq<char>> {
    match key {
        Some(k) => Some(k@),
        None => None,
    }
}

/// Whether the task belongs to the group `key`.
pub fn belongs_to(task: &Task, key: Option<&str>) -> (r: bool)
    ensures
        r == in_group(key_of(key))(*task),
{
    match (&task.project, key) {
        (Some(p), Some(k)) => same_text(p.as_str(), k),
        (None, None) => true,
        _ => false,
    }
}

/// The tasks of the group `key`, in their order.
pub fn group_members(tasks: &Vec<Task>, key: Option<&str>) -> (members: Vec<Task>)
    ensures
        members@ == tasks@.filter(in_group(key_of(key))),
{
    let mut members: Vec<Task> = Vec::new();
    let mut i: usize = 0;
    while i < tasks.len()
        invariant
            i <= tasks.len(),
            members@ == tasks@.take(i as int).filter(in_group(key_of(key))),
        decreases tasks.len() - i,
    {
        proof {
            tasks@.lemma_take_succ_push(i as int);
            tasks@.take(i as int).lemma_filter_push(tasks@[i as int], in_group(key_of(key)));
        }
        if belongs_to(&tasks[i], key) {
            members.push(tasks[i].duplicate());
        }
        i = i + 1;
    }
    proof {
        assert(tasks@.take(i as int) =~= tasks@);
    }
    members
}

/// Puts the tasks at the end of the rows, in their order.
pub fn append_task_rows(rows: &mut Vec<DisplayItem>, tasks: &Vec<Task>)
    ensures
        rows_of(final(rows)@) == rows_of(old(rows)@) + flat_rows(tasks@),
{
    let mut i: usize = 0;
    while i < tasks.len()
        invariant
            i <= tasks.len(),
            rows_of(rows@) == rows_of(old(rows)@) + flat_rows(tasks@.take(i as int)),
        decreases tasks.len() - i,
    {
        let ghost before = rows@;
        rows.push(DisplayItem::Task(tasks[i].duplicate()));
        proof {
            tasks@.lemma_take_succ_push(i as int);
            assert(rows_of(rows@) =~= rows_of(before).push(Row::Task(tasks@[i as int])));
            assert(flat_rows(tasks@.take(i + 1)) =~= flat_rows(tasks@.take(i as int)).push(
                Row::Task(tasks@[i as int]),
            ));
            assert(rows_of(rows@) =~= rows_of(old(rows)@) + flat_rows(tasks@.take(i + 1)));
        }
        i = i + 1;
    }
    proof {
        assert(tasks@.take(i as int) =~= tasks@);
    }
}

/// Puts the rows of the group `key` at the end of the rows.
pub fn append_group(
    rows: &mut Vec<DisplayItem>,
    tasks: &Vec<Task>,
    key: Option<&str>,
    expanded: &Vec<String>,
)
    ensures
        rows_of(final(rows)@) == rows_of(old(rows)@) + group_rows(
            tasks@,
            key_of(key),
            expanded@,
        ),
{
    let members = group_members(tasks, key);
    if members.len() == 0 {
        proof {
            assert(rows_of(rows@) =~= rows_of(rows@) + Seq::<Row>::empty());
        }
        return ;
    }
    let label = match key {
        Some(k) => String::from_str(k),
        None => String::from_str("No Project"),
    };
    let open = contains_name(expanded, label.as_str());
    let ghost before = rows@;
    let ghost header = Row::Header(group_label(key_of(key)), members@.len());
    rows.push(DisplayItem::ProjectHeader(label, members.len()));
    proof {
        assert(rows_of(rows@) =~= rows_of(before) + seq![header]);
    }
    if open {
        append_task_rows(rows, &members);
        proof {
            assert(rows_of(rows@) =~= rows_of(before) + (seq![header] + flat_rows(members@)));
        }
    }
}

/// The rows of the task table: the tasks in their order, or, grouped by
/// project, first the tasks without a project and then each project in the
/// order of the dictionary.
pub fn build_rows(tasks: &Vec<Task>, grouped: bool, expanded: &Vec<String>) -> (rows: Vec<
    DisplayItem,
>)
    ensures
        table_rows(rows_of(rows@), tasks@, grouped, expanded@),
{
    let mut rows: Vec<DisplayItem> = Vec::new();
    if !grouped {
        append_task_rows(&mut rows, tasks);
        proof {
            assert(rows_of(rows@) =~= flat_rows(tasks@));
        }
        return rows;
    }
    let names = project_names(tasks);
    append_group(&mut rows, tasks, None, expanded);
    proof {
        assert(rows_of(rows@) =~= group_rows(tasks@, None, expanded@));
    }
    let mut k: usize = 0;
    while k < names.len()
        invariant
            k <= names.len(),
            rows_of(rows@) == group_rows(tasks@, None, expanded@) + named_group_rows(
                tasks@,
                names@.take(k as int),
                expanded@,
            ),
        decreases names.len() - k,
    {
        append_group(&mut rows, tasks, Some(names[k].as_str()), expanded);
        proof {
            assert(names@.take(k + 1).drop_last() =~= names@.take(k as int));
            assert(rows_of(rows@) =~= group_rows(tasks@, None, expanded@) + named_group_rows(
                tasks@,
                names@.take(k + 1),
                expanded@,
            ));
        }
        k = k + 1;
    }
    proof {
        assert(names@.take(k as int) =~= names@);
        assert(grouped_rows(tasks@, names@, expanded@) == rows_of(rows@));
    }
    rows
}

/// Whether `rows` are the rows of the task table for the tasks shown.
pub open spec fn table_rows(rows: Seq<Row>, tasks: Seq<Task>, grouped: bool, expanded: Seq<String>)
    -> bool {
    if grouped {
        exists|names: Seq<String>|
            lists_projects(names, tasks, tasks.len() as int) && rows == #[trigger] grouped_rows(
                tasks,
                names,
                expanded,
            )
    } else {
        rows == flat_rows(tasks)
    }
}

} // verus!
