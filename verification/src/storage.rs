//! Lookups and updates on whole collections, and the names of the files
//! that hold them.

use vstd::prelude::*;
use crate::models::{Task, Template};
use crate::store::{
    find_task, find_template, first_index, ids_unique, named, tasks_wf, with_id,
};

verus! {

/// The first task with the given id.
pub fn load_task(tasks: &Vec<Task>, id: u64) -> (r: Option<Task>)
    ensures
        match first_index(tasks@, with_id(id)) {
            Some(i) => r == Some(tasks@[i]),
            None => r.is_none(),
        },
{
    match find_task(tasks, id) {
        Some(i) => Some(tasks[i].duplicate()),
        None => None,
    }
}

/// The first template with the given name.
pub fn load_template(templates: &Vec<Template>, name: &str) -> (r: Option<Template>)
    ensures
        match first_index(templates@, named(name@)) {
            Some(i) => r == Some(templates@[i]),
            None => r.is_none(),
        },
{
    match find_template(templates, name) {
        Some(i) => Some(templates[i].duplicate()),
        None => None,
    }
}

/// A copy of the templates, in their order.
pub fn copy_templates(templates: &Vec<Template>) -> (r: Vec<Template>)
    ensures
        r@ == templates@,
{
    let mut r: Vec<Template> = Vec::new();
    let mut i: usize = 0;
    while i < templates.len()
        invariant
            i <= templates.len(),
            r@ == templates@.take(i as int),
        decreases templates.len() - i,
    {
        r.push(templates[i].duplicate());
        proof {
            templates@.lemma_take_succ_push(i as int);
        }
        i = i + 1;
    }
    proof {
        assert(templates@.take(i as int) =~= templates@);
    }
    r
}

/// Writes the task over the first task with its id, or puts it at the end
/// where no task has that id.
pub fn save_task(tasks: &mut Vec<Task>, task: &Task)
    ensures
        match first_index(old(tasks)@, with_id(task.id)) {
            Some(i) => final(tasks)@ == old(tasks)@.update(i, *task),
            None => final(tasks)@ == old(tasks)@.push(*task),
        },
        ids_unique(old(tasks)@) && task.id > 0 ==> ids_unique(final(tasks)@),
        tasks_wf(old(tasks)@) && task.wf() ==> tasks_wf(final(tasks)@),
{
    match find_task(tasks, task.id) {
        Some(i) => {
            tasks.set(i, task.duplicate());
        },
        None => {
            tasks.push(task.duplicate());
        },
    }
}

/// Puts the tasks at the end of the archive, in their order.
pub fn append_to_archive(archive: &mut Vec<Task>, new_tasks: Vec<Task>)
    ensures
        final(archive)@ == old(archive)@ + new_tasks@,
{
    let mut rest = new_tasks;
    archive.append(&mut rest);
}

/// The place of the last `/` in a path, or -1 where it has none.
pub open spec fn last_separator(path: Seq<char>) -> int
    decreases path.len(),
{
    if path.len() == 0 {
        -1
    } else if path.last() == '/' {
        path.len() - 1
    } else {
        last_separator(path.drop_last())
    }
}

/// The file `file` in the directory of `path`: the path up to and with its
/// last `/`, then the file's name.
pub open spec fn sibling(path: Seq<char>, file: Seq<char>) -> Seq<char> {
    path.take(last_separator(path) + 1) + file
}

/// The file `file` in the directory of `path`.
pub fn sibling_path(path: &str, file: &str) -> (r: String)
    ensures
        r@ == sibling(path@, file@),
{
    let n = path.unicode_len();
    let mut cut: usize = 0;
    let mut i: usize = 0;
    while i < n
        invariant
            n == path@.len(),
            i <= n,
            cut == last_separator(path@.take(i as int)) + 1,
            cut <= i,
        decreases n - i,
    {
        proof {
            assert(path@.take(i + 1).drop_last() =~= path@.take(i as int));
        }
        if path.get_char(i) == '/' {
            cut = i + 1;
        }
        i = i + 1;
    }
    proof {
        assert(path@.take(n as int) =~= path@);
    }
    let mut r = String::from_str(path.substring_char(0, cut));
    r.append(file);
    r
}

/// A path with one more component: the component follows a `/`, which is
/// put in where the path is not empty and does not end in one.
pub open spec fn joined(path: Seq<char>, component: Seq<char>) -> Seq<char> {
    if path.len() > 0 && path.last() != '/' {
        path + seq!['/'] + component
    } else {
        path + component
    }
}

/// A path with one more component.
pub fn join_path(path: &str, component: &str) -> (r: String)
    ensures
        r@ == joined(path@, component@),
{
    let n = path.unicode_len();
    let mut r = String::from_str(path);
    if n > 0 && path.get_char(n - 1) != '/' {
        proof {
            reveal_strlit("/");
            assert("/"@ =~= seq!['/']);
        }
        r.append("/");
    }
    r.append(component);
    r
}

/// The file that holds the tasks: the path that overrides the others where
/// one is given; else `taskust/tasks.json` in the data directory of the
/// user, or in the current directory where the user has none.
pub open spec fn tasks_file(overriding: Option<String>, data_dir: Option<String>) -> Seq<char> {
    match overriding {
        Some(path) => path@,
        None => joined(
            joined(
                match data_dir {
                    Some(dir) => dir@,
                    None => "."@,
                },
                "taskust"@,
            ),
            "tasks.json"@,
        ),
    }
}

/// The file that holds the tasks.
pub fn db_path(overriding: Option<String>, data_dir: Option<String>) -> (r: String)
    ensures
        r@ == tasks_file(overriding, data_dir),
{
    match overriding {
        Some(path) => path,
        None => {
            let dir = match data_dir {
                Some(dir) => join_path(dir.as_str(), "taskust"),
                None => join_path(".", "taskust"),
            };
            join_path(dir.as_str(), "tasks.json")
        },
    }
}

/// The file that holds the templates: `templates.json` beside the file that
/// holds the tasks.
pub fn templates_path(tasks_path: &str) -> (r: String)
    ensures
        r@ == sibling(tasks_path@, "templates.json"@),
{
    sibling_path(tasks_path, "templates.json")
}

/// The file that holds the archive: `archive.json` beside the file that
/// holds the tasks.
pub fn archive_path(tasks_path: &str) -> (r: String)
    ensures
        r@ == sibling(tasks_path@, "archive.json"@),
{
    sibling_path(tasks_path, "archive.json")
}

} // verus!
