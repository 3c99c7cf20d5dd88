//! The collections of tasks and templates, and lookups by key.

use vstd::prelude::*;
use crate::models::{Task, Template};
use crate::text::same_text;

verus! {

/// The tasks in work, the templates, and the tasks put away.
#[derive(Clone, Debug, PartialEq, Eq)]
pub struct Store {
    /// The active tasks, in the order they were added.
    pub tasks: Vec<Task>,
    pub templates: Vec<Template>,
    /// Completed tasks that were moved out of `tasks`; only ever appended to.
    pub archive: Vec<Task>,
}

/// Whether `i` is the first place in `s` whose item meets `p`.
pub open spec fn is_first<A>(s: Seq<A>, p: spec_fn(A) -> bool, i: int) -> bool {
    &&& 0 <= i < s.len()
    &&& p(s[i])
    &&& forall|j: int| 0 <= j < i ==> !p(#[trigger] s[j])
}

/// The first place in `s` whose item meets `p`.
pub open spec fn first_index<A>(s: Seq<A>, p: spec_fn(A) -> bool) -> Option<int> {
    if exists|i: int| is_first(s, p, i) {
        Some(choose|i: int| is_first(s, p, i))
    } else {
        None
    }
}

/// The first place that meets `p` is the only one that `first_index` gives.
pub proof fn lemma_first_index<A>(s: Seq<A>, p: spec_fn(A) -> bool, i: int)
    requires
        is_first(s, p, i),
    ensures
        first_index(s, p) == Some(i),
{
    let c = choose|c: int| is_first(s, p, c);
    if c < i {
        assert(!p(s[c]));
    } else if i < c {
        assert(!p(s[i]));
    }
}

/// Where no item meets `p`, `first_index` gives nothing.
pub proof fn lemma_no_index<A>(s: Seq<A>, p: spec_fn(A) -> bool)
    requires
        forall|j: int| 0 <= j < s.len() ==> !p(#[trigger] s[j]),
    ensures
        first_index(s, p).is_none(),
{
}

/// What `first_index` gives is a first place, and `None` means no place.
pub proof fn lemma_first_index_meaning<A>(s: Seq<A>, p: spec_fn(A) -> bool)
    ensures
        first_index(s, p) matches Some(i) ==> is_first(s, p, i),
        first_index(s, p).is_none() ==> forall|j: int| 0 <= j < s.len() ==> !p(#[trigger] s[j]),
{
    if first_index(s, p).is_none() {
        assert forall|j: int| 0 <= j < s.len() implies !p(#[trigger] s[j]) by {
            if p(s[j]) {
                lemma_some_first(s, p, j);
            }
        }
    }
}

/// An item that meets `p` at `k` puts a first such item at or before `k`.
proof fn lemma_some_first<A>(s: Seq<A>, p: spec_fn(A) -> bool, k: int)
    requires
        0 <= k < s.len(),
        p(s[k]),
    ensures
        exists|i: int| is_first(s, p, i),
    decreases k,
{
    if exists|j: int| 0 <= j < k && p(s[j]) {
        let j = choose|j: int| 0 <= j < k && p(s[j]);
        lemma_some_first(s, p, j);
    } else {
        assert(is_first(s, p, k));
    }
}

/// The tasks with the given id.
pub open spec fn with_id(id: u64) -> spec_fn(Task) -> bool {
    |t: Task| t.id == id
}

/// The templates with the given name.
pub open spec fn named(name: Seq<char>) -> spec_fn(Template) -> bool {
    |t: Template| t.name@ == name
}

/// The largest id among the tasks, or 0 where there is none.
pub open spec fn max_id(tasks: Seq<Task>) -> int
    decreases tasks.len(),
{
    if tasks.len() == 0 {
        0
    } else {
        let rest = max_id(tasks.drop_last());
        if tasks.last().id > rest {
            tasks.last().id as int
        } else {
            rest
        }
    }
}

/// No id lies above the largest.
pub proof fn lemma_max_id_bounds(tasks: Seq<Task>)
    ensures
        0 <= max_id(tasks) <= u64::MAX,
        forall|i: int| 0 <= i < tasks.len() ==> (#[trigger] tasks[i]).id <= max_id(tasks),
    decreases tasks.len(),
{
    if tasks.len() > 0 {
        lemma_max_id_bounds(tasks.drop_last());
        assert forall|i: int| 0 <= i < tasks.len() implies (#[trigger] tasks[i]).id <= max_id(
            tasks,
        ) by {
            if i < tasks.len() - 1 {
                assert(tasks.drop_last()[i] == tasks[i]);
            }
        }
    }
}

/// No two tasks share an id, and every id is positive.
pub open spec fn ids_unique(tasks: Seq<Task>) -> bool {
    &&& forall|i: int| 0 <= i < tasks.len() ==> (#[trigger] tasks[i]).id > 0
    &&& forall|i: int, j: int|
        0 <= i < j < tasks.len() ==> (#[trigger] tasks[i]).id != (#[trigger] tasks[j]).id
}

/// No two templates share a name.
pub open spec fn names_unique(templates: Seq<Template>) -> bool {
    forall|i: int, j: int|
        0 <= i < j < templates.len() ==> (#[trigger] templates[i]).name@ != (
        #[trigger] templates[j]).name@
}

/// Every task carries a completion time exactly when it is completed.
pub open spec fn tasks_wf(tasks: Seq<Task>) -> bool {
    forall|i: int| 0 <= i < tasks.len() ==> (#[trigger] tasks[i]).wf()
}

/// For each item that a filter keeps, the place it came from.
pub open spec fn filter_origins<A>(s: Seq<A>, p: spec_fn(A) -> bool) -> Seq<int>
    decreases s.len(),
{
    if s.len() == 0 {
        Seq::empty()
    } else {
        let rest = filter_origins(s.drop_last(), p);
        if p(s.last()) {
            rest.push(s.len() - 1)
        } else {
            rest
        }
    }
}

/// A filter keeps items in the order in which they stood: the places they
/// came from rise strictly.
pub proof fn lemma_filter_origins<A>(s: Seq<A>, p: spec_fn(A) -> bool)
    ensures
        filter_origins(s, p).len() == s.filter(p).len(),
        forall|k: int|
            0 <= k < s.filter(p).len() ==> 0 <= (#[trigger] filter_origins(s, p)[k]) < s.len()
                && s.filter(p)[k] == s[filter_origins(s, p)[k]],
        forall|k: int, l: int|
            0 <= k < l < s.filter(p).len() ==> (#[trigger] filter_origins(s, p)[k]) < (
            #[trigger] filter_origins(s, p)[l]),
    decreases s.len(),
{
    if s.len() == 0 {
        assert(s.filter(p).len() == 0) by {
            s.lemma_filter_len(p);
        }
    } else {
        let front = s.drop_last();
        lemma_filter_origins(front, p);
        front.lemma_filter_push(s.last(), p);
        assert(front.push(s.last()) =~= s);
    }
}

/// Filtering keeps ids unique and positive.
pub proof fn lemma_filter_ids_unique(tasks: Seq<Task>, p: spec_fn(Task) -> bool)
    requires
        ids_unique(tasks),
    ensures
        ids_unique(tasks.filter(p)),
{
    lemma_filter_origins(tasks, p);
    let o = filter_origins(tasks, p);
    let f = tasks.filter(p);
    assert forall|i: int| 0 <= i < f.len() implies (#[trigger] f[i]).id > 0 by {
        assert(f[i] == tasks[o[i]]);
    }
    assert forall|i: int, j: int| 0 <= i < j < f.len() implies (#[trigger] f[i]).id != (
    #[trigger] f[j]).id by {
        assert(f[i] == tasks[o[i]]);
        assert(f[j] == tasks[o[j]]);
        assert(o[i] < o[j]);
    }
}

/// Filtering keeps every task well formed.
pub proof fn lemma_filter_tasks_wf(tasks: Seq<Task>, p: spec_fn(Task) -> bool)
    requires
        tasks_wf(tasks),
    ensures
        tasks_wf(tasks.filter(p)),
{
    lemma_filter_origins(tasks, p);
    let o = filter_origins(tasks, p);
    let f = tasks.filter(p);
    assert forall|i: int| 0 <= i < f.len() implies (#[trigger] f[i]).wf() by {
        assert(f[i] == tasks[o[i]]);
    }
}

/// Filtering keeps template names unique.
pub proof fn lemma_filter_names_unique(templates: Seq<Template>, p: spec_fn(Template) -> bool)
    requires
        names_unique(templates),
    ensures
        names_unique(templates.filter(p)),
{
    lemma_filter_origins(templates, p);
    let o = filter_origins(templates, p);
    let f = templates.filter(p);
    assert forall|i: int, j: int| 0 <= i < j < f.len() implies (#[trigger] f[i]).name@ != (
    #[trigger] f[j]).name@ by {
        assert(f[i] == templates[o[i]]);
        assert(f[j] == templates[o[j]]);
        assert(o[i] < o[j]);
    }
}

impl Store {
    /// The invariants of the collections: ids are positive and unique,
    /// template names are unique, and every task is well formed.
    pub open spec fn wf(self) -> bool {
        &&& ids_unique(self.tasks@)
        &&& tasks_wf(self.tasks@)
        &&& names_unique(self.templates@)
    }

    /// A store with nothing in it.
    pub fn new() -> (s: Store)
        ensures
            s.tasks@.len() == 0,
            s.templates@.len() == 0,
            s.archive@.len() == 0,
            s.wf(),
    {
        Store { tasks: Vec::new(), templates: Vec::new(), archive: Vec::new() }
    }
}

/// The largest id among the tasks, or 0 where there is none.
pub fn highest_id(tasks: &Vec<Task>) -> (m: u64)
    ensures
        m == max_id(tasks@),
{
    let mut m: u64 = 0;
    let mut i: usize = 0;
    while i < tasks.len()
        invariant
            i <= tasks.len(),
            m == max_id(tasks@.take(i as int)),
        decreases tasks.len() - i,
    {
        proof {
            assert(tasks@.take(i + 1).drop_last() =~= tasks@.take(i as int));
        }
        if tasks[i].id > m {
            m = tasks[i].id;
        }
        i = i + 1;
    }
    proof {
        assert(tasks@.take(i as int) =~= tasks@);
    }
    m
}

/// The place of the first task with the given id.
pub fn find_task(tasks: &Vec<Task>, id: u64) -> (r: Option<usize>)
    ensures
        r matches Some(i) ==> first_index(tasks@, with_id(id)) == Some(i as int) && i
            < tasks.len() && tasks[i as int].id == id,
        r.is_none() ==> first_index(tasks@, with_id(id)).is_none(),
        r.is_none() ==> forall|j: int| 0 <= j < tasks.len() ==> (#[trigger] tasks[j]).id != id,
{
    let mut i: usize = 0;
    while i < tasks.len()
        invariant
            i <= tasks.len(),
            forall|j: int| 0 <= j < i ==> !with_id(id)(#[trigger] tasks@[j]),
        decreases tasks.len() - i,
    {
        if tasks[i].id == id {
            proof {
                lemma_first_index(tasks@, with_id(id), i as int);
            }
            return Some(i);
        }
        i = i + 1;
    }
    proof {
        lemma_no_index(tasks@, with_id(id));
    }
    None
}

/// The place of the first template with the given name.
pub fn find_template(templates: &Vec<Template>, name: &str) -> (r: Option<usize>)
    ensures
        r matches Some(i) ==> first_index(templates@, named(name@)) == Some(i as int) && i
            < templates.len() && templates[i as int].name@ == name@,
        r.is_none() ==> first_index(templates@, named(name@)).is_none(),
        r.is_none() ==> forall|j: int|
            0 <= j < templates.len() ==> (#[trigger] templates[j]).name@ != name@,
{
    let mut i: usize = 0;
    while i < templates.len()
        invariant
            i <= templates.len(),
            forall|j: int| 0 <= j < i ==> !named(name@)(#[trigger] templates@[j]),
        decreases templates.len() - i,
    {
        if same_text(templates[i].name.as_str(), name) {
            proof {
                lemma_first_index(templates@, named(name@), i as int);
            }
            return Some(i);
        }
        i = i + 1;
    }
    proof {
        lemma_no_index(templates@, named(name@));
    }
    None
}

} // verus!
