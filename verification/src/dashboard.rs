//! The state behind the interactive dashboard: what is shown, what is
//! selected, and the input that is being typed.

use vstd::prelude::*;
use crate::commands::{
    add_requested, cmd_add, cmd_complete, cmd_edit, cmd_estimate, cmd_log, cmd_remove,
    completion_requested, default_hours, edit_requested, estimate_set, hours_logged,
    task_removed, Completion,
};
use crate::dates::{day_number_text, format_date};
use crate::grouping::{build_rows, contains_name, has_name, rows_of, table_rows};
use crate::listing::{visible, visible_tasks};
use crate::models::{
    copy_text, hours_text, Date, Error, Hours, Task, Template, HUNDREDTHS_PER_HOUR,
};
use crate::ranking::{is_ranked, ranked};
use crate::storage::copy_templates;
use crate::store::Store;
use crate::text::same_text;
use crate::templates::{cmd_template_add, cmd_template_remove, template_added, template_removed};

verus! {

/// What the keyboard is doing.
#[derive(Clone, Copy, Debug, PartialEq, Eq, Structural)]
pub enum InputMode {
    /// Keys are commands.
    Normal,
    /// Keys go into the buffer, for one field of the selected task.
    Editing,
    /// Keys go into the buffer, for one step of the add wizard.
    Adding,
}

/// Which table is shown.
#[derive(Clone, Copy, Debug, PartialEq, Eq, Structural)]
pub enum ViewMode {
    Tasks,
    Templates,
}

/// The field that an edit writes.
#[derive(Clone, Copy, Debug, PartialEq, Eq, Structural)]
pub enum InputField {
    /// No field: nothing is being edited.
    Unset,
    Name,
    Project,
    Due,
    Hours,
    Recur,
    Template,
    LogHours,
    EstimateHours,
}

/// One row of the task table.
#[derive(Clone, Debug, PartialEq, Eq)]
pub enum DisplayItem {
    Task(Task),
    /// A project with the number of its tasks.
    ProjectHeader(String, usize),
}

/// One row of the task table, as contracts see it.
pub ghost enum Row {
    Task(Task),
    Header(Seq<char>, nat),
}

impl View for DisplayItem {
    type V = Row;

    open spec fn view(&self) -> Row {
        match self {
            DisplayItem::Task(t) => Row::Task(*t),
            DisplayItem::ProjectHeader(name, count) => Row::Header(name@, *count as nat),
        }
    }
}

/// The draft that the add wizard fills step by step.
#[derive(Clone, Debug, PartialEq, Eq)]
pub struct AddState {
    pub name: String,
    pub project: Option<String>,
    pub due: String,
    pub hours: Option<Hours>,
    pub recur: Option<String>,
    /// The step that the next confirmed input belongs to, from 0.
    pub step: usize,
    /// The template that the task is made from, if any.
    pub template: Option<String>,
}

impl AddState {
    /// An empty draft at the first step.
    pub fn new() -> (s: AddState)
        ensures
            s.name@.len() == 0,
            s.project.is_none(),
            s.due@.len() == 0,
            s.hours.is_none(),
            s.recur.is_none(),
            s.step == 0,
            s.template.is_none(),
    {
        AddState {
            name: String::new(),
            project: None,
            due: String::new(),
            hours: None,
            recur: None,
            step: 0,
            template: None,
        }
    }
}

/// What a confirmed input asks of the dashboard.
#[derive(Clone, Copy, Debug, PartialEq, Eq, Structural)]
pub enum WizardAction {
    /// The input does not fit the step: nothing changes.
    Stay,
    /// The draft took the input and moved to the next step.
    Advance,
    /// The draft is complete: add the task with its project and estimate.
    AddTask,
    /// The draft is complete: add the task, project and estimate from its
    /// template.
    AddFromTemplate,
    /// The draft is complete: add the template with this estimate.
    AddTemplate(Hours),
}

/// Whether the draft is empty, at the first step, for the given template.
pub open spec fn is_blank_draft(s: AddState, template: Option<String>) -> bool {
    &&& s.name@.len() == 0
    &&& s.project.is_none()
    &&& s.due@.len() == 0
    &&& s.hours.is_none()
    &&& s.recur.is_none()
    &&& s.step == 0
    &&& s.template == template
}

/// The text, or what was held where the text is empty.
pub open spec fn text_or(buffer: String, held: Option<String>) -> Option<String> {
    if buffer@.len() > 0 {
        Some(buffer)
    } else {
        held
    }
}

/// The draft after the input `buffer` was confirmed, and what the
/// confirmation asks for.
///
/// A task from a template asks for a name, a due date and a recurrence.  A
/// task without one asks for a name, a due date, a project, an estimate, a
/// recurrence and a template.  A template asks for a name, a project and an
/// estimate.  Name and due date must not be empty; an estimate that is
/// left empty is one hour; `parsed` is the estimate read from the buffer.
pub open spec fn confirmed(s: AddState, view: ViewMode, buffer: String, parsed: Option<Hours>) -> (
    AddState,
    WizardAction,
) {
    let filled = buffer@.len() > 0;
    let next = (s.step + 1) as usize;
    if s.template.is_some() {
        if s.step == 0 && filled {
            (AddState { name: buffer, step: next, ..s }, WizardAction::Advance)
        } else if s.step == 1 && filled {
            (AddState { due: buffer, step: next, ..s }, WizardAction::Advance)
        } else if s.step == 2 {
            (AddState { recur: text_or(buffer, s.recur), ..s }, WizardAction::AddFromTemplate)
        } else {
            (s, WizardAction::Stay)
        }
    } else if view == ViewMode::Tasks {
        if s.step == 0 && filled {
            (AddState { name: buffer, step: next, ..s }, WizardAction::Advance)
        } else if s.step == 1 && filled {
            (AddState { due: buffer, step: next, ..s }, WizardAction::Advance)
        } else if s.step == 2 {
            (AddState { project: text_or(buffer, s.project), step: next, ..s }, WizardAction::Advance)
        } else if s.step == 3 && parsed.is_some() {
            (AddState { hours: parsed, step: next, ..s }, WizardAction::Advance)
        } else if s.step == 3 && !filled {
            (AddState { hours: Some(default_hours()), step: next, ..s }, WizardAction::Advance)
        } else if s.step == 4 {
            (AddState { recur: text_or(buffer, s.recur), step: next, ..s }, WizardAction::Advance)
        } else if s.step == 5 {
            (AddState { template: text_or(buffer, s.template), ..s }, WizardAction::AddTask)
        } else {
            (s, WizardAction::Stay)
        }
    } else {
        if s.step == 0 && filled {
            (AddState { name: buffer, step: next, ..s }, WizardAction::Advance)
        } else if s.step == 1 {
            (AddState { project: text_or(buffer, s.project), step: next, ..s }, WizardAction::Advance)
        } else if s.step == 2 {
            (
                s,
                WizardAction::AddTemplate(
                    match parsed {
                        Some(h) => h,
                        None => default_hours(),
                    },
                ),
            )
        } else {
            (s, WizardAction::Stay)
        }
    }
}

impl AddState {
    /// Takes the confirmed input `buffer` into the draft and says what the
    /// confirmation asks for.
    pub fn confirm(&mut self, view: ViewMode, buffer: &String, parsed: Option<Hours>) -> (action:
        WizardAction)
        ensures
            (*final(self), action) == confirmed(*old(self), view, *buffer, parsed),
    {
        let filled = !buffer.as_str().is_empty();
        let one_hour = Hours::from_hundredths(HUNDREDTHS_PER_HOUR);
        let from_template = self.template.is_some();
        let tasks_view = match view {
            ViewMode::Tasks => true,
            ViewMode::Templates => false,
        };
        if self.step > 5 {
            return WizardAction::Stay;
        }
        let step = self.step;
        if from_template {
            if step == 0 && filled {
                self.name = buffer.clone();
                self.step = step + 1;
                WizardAction::Advance
            } else if step == 1 && filled {
                self.due = buffer.clone();
                self.step = step + 1;
                WizardAction::Advance
            } else if step == 2 {
                if filled {
                    self.recur = Some(buffer.clone());
                }
                WizardAction::AddFromTemplate
            } else {
                WizardAction::Stay
            }
        } else if tasks_view {
            if step == 0 && filled {
                self.name = buffer.clone();
                self.step = step + 1;
                WizardAction::Advance
            } else if step == 1 && filled {
                self.due = buffer.clone();
                self.step = step + 1;
                WizardAction::Advance
            } else if step == 2 {
                if filled {
                    self.project = Some(buffer.clone());
                }
                self.step = step + 1;
                WizardAction::Advance
            } else if step == 3 && parsed.is_some() {
                self.hours = parsed;
                self.step = step + 1;
                WizardAction::Advance
            } else if step == 3 && !filled {
                self.hours = Some(one_hour);
                self.step = step + 1;
                WizardAction::Advance
            } else if step == 4 {
                if filled {
                    self.recur = Some(buffer.clone());
                }
                self.step = step + 1;
                WizardAction::Advance
            } else if step == 5 {
                if filled {
                    self.template = Some(buffer.clone());
                }
                WizardAction::AddTask
            } else {
                WizardAction::Stay
            }
        } else {
            if step == 0 && filled {
                self.name = buffer.clone();
                self.step = step + 1;
                WizardAction::Advance
            } else if step == 1 {
                if filled {
                    self.project = Some(buffer.clone());
                }
                self.step = step + 1;
                WizardAction::Advance
            } else if step == 2 {
                WizardAction::AddTemplate(
                    match parsed {
                        Some(h) => h,
                        None => one_hour,
                    },
                )
            } else {
                WizardAction::Stay
            }
        }
    }
}

/// The selection after the list changed to `len` rows: none in an empty
/// list, else the row that was selected or the last row where that is gone,
/// and the first row where none was selected.
pub open spec fn clamped(selected: Option<usize>, len: nat) -> Option<usize> {
    if len == 0 {
        None
    } else {
        match selected {
            Some(i) => if i >= len {
                Some((len - 1) as usize)
            } else {
                Some(i)
            },
            None => Some(0),
        }
    }
}

/// The selection after the list changed to `len` rows.
pub fn clamp_selection(selected: Option<usize>, len: usize) -> (r: Option<usize>)
    ensures
        r == clamped(selected, len as nat),
{
    if len == 0 {
        None
    } else {
        match selected {
            Some(i) => if i >= len {
                Some(len - 1)
            } else {
                Some(i)
            },
            None => Some(0),
        }
    }
}

/// The selection one row down in a list of `len` rows, from the last row
/// back to the first.  An empty list keeps the selection it has.
pub open spec fn stepped_down(selected: Option<usize>, len: nat) -> Option<usize> {
    if len == 0 {
        selected
    } else {
        match selected {
            Some(i) => if i >= len - 1 {
                Some(0)
            } else {
                Some((i + 1) as usize)
            },
            None => Some(0),
        }
    }
}

/// The selection one row up in a list of `len` rows, from the first row on
/// to the last.  An empty list keeps the selection it has.
pub open spec fn stepped_up(selected: Option<usize>, len: nat) -> Option<usize> {
    if len == 0 {
        selected
    } else {
        match selected {
            Some(i) => if i == 0 {
                Some((len - 1) as usize)
            } else {
                Some((i - 1) as usize)
            },
            None => Some(0),
        }
    }
}

/// The selection one row down in a list of `len` rows.
pub fn step_down(selected: Option<usize>, len: usize) -> (r: Option<usize>)
    ensures
        r == stepped_down(selected, len as nat),
{
    if len == 0 {
        selected
    } else {
        match selected {
            Some(i) => if i >= len - 1 {
                Some(0)
            } else {
                Some(i + 1)
            },
            None => Some(0),
        }
    }
}

/// The selection one row up in a list of `len` rows.
pub fn step_up(selected: Option<usize>, len: usize) -> (r: Option<usize>)
    ensures
        r == stepped_up(selected, len as nat),
{
    if len == 0 {
        selected
    } else {
        match selected {
            Some(i) => if i == 0 {
                Some(len - 1)
            } else {
                Some(i - 1)
            },
            None => Some(0),
        }
    }
}

/// The dashboard: the tables as shown, the selections, and the input state.
#[derive(Clone, Debug, PartialEq, Eq)]
pub struct App {
    /// The tasks that the table shows, most urgent first.
    pub tasks: Vec<Task>,
    /// The rows of the task table.
    pub display_items: Vec<DisplayItem>,
    pub templates: Vec<Template>,
    /// The selected row of the task table.
    pub state: Option<usize>,
    /// The selected row of the template table.
    pub template_state: Option<usize>,
    pub view_mode: ViewMode,
    pub input_mode: InputMode,
    pub input_field: InputField,
    pub input_buffer: String,
    /// The task that an edit writes to.
    pub target_id: Option<u64>,
    pub add_state: AddState,
    pub show_completed: bool,
    pub group_by_project: bool,
    /// The labels of the project groups that are open.
    pub expanded_projects: Vec<String>,
}

/// Whether the input state and the view settings are the same in both.
pub open spec fn same_input(pre: App, post: App) -> bool {
    &&& post.view_mode == pre.view_mode
    &&& post.input_mode == pre.input_mode
    &&& post.input_field == pre.input_field
    &&& post.input_buffer == pre.input_buffer
    &&& post.target_id == pre.target_id
    &&& post.add_state == pre.add_state
    &&& post.show_completed == pre.show_completed
    &&& post.group_by_project == pre.group_by_project
    &&& post.expanded_projects == pre.expanded_projects
}

/// Whether `post` shows the store as `pre` is set to show it: the visible
/// tasks by falling urgency, the rows made of them, the templates, and the
/// template selection held inside the table.
pub open spec fn tables_loaded(pre: App, post: App, store: Store, today: Date) -> bool {
    &&& is_ranked(post.tasks@, store.tasks@.filter(visible(pre.show_completed)), today)
    &&& table_rows(
        rows_of(post.display_items@),
        post.tasks@,
        pre.group_by_project,
        pre.expanded_projects@,
    )
    &&& post.templates@ == store.templates@
    &&& post.template_state == clamped(pre.template_state, store.templates@.len())
    &&& same_input(pre, post)
}

/// Whether `post` is `pre` after a reload from the store: the tables are
/// loaded and the task selection is held inside the rows.
pub open spec fn reloaded(pre: App, post: App, store: Store, today: Date) -> bool {
    &&& tables_loaded(pre, post, store, today)
    &&& post.state == clamped(pre.state, post.display_items@.len())
}

/// The task in the selected row of the task table, where that table is in
/// view and the row holds a task.
pub open spec fn selected_task(app: App) -> Option<Task> {
    match (app.view_mode, app.state) {
        (ViewMode::Tasks, Some(i)) => if i < app.display_items@.len() {
            match app.display_items@[i as int] {
                DisplayItem::Task(t) => Some(t),
                DisplayItem::ProjectHeader(_, _) => None,
            }
        } else {
            None
        },
        _ => None,
    }
}

/// The label in the selected row of the task table, where that table is in
/// view and the row is the header of a group.
pub open spec fn selected_header(app: App) -> Option<String> {
    match (app.view_mode, app.state) {
        (ViewMode::Tasks, Some(i)) => if i < app.display_items@.len() {
            match app.display_items@[i as int] {
                DisplayItem::Task(_) => None,
                DisplayItem::ProjectHeader(name, _) => Some(name),
            }
        } else {
            None
        },
        _ => None,
    }
}

/// The template in the selected row of the template table, where that table
/// is in view.
pub open spec fn selected_template(app: App) -> Option<Template> {
    match (app.view_mode, app.template_state) {
        (ViewMode::Templates, Some(i)) => if i < app.templates@.len() {
            Some(app.templates@[i as int])
        } else {
            None
        },
        _ => None,
    }
}

/// The names that differ from `name`.
pub open spec fn other_than(name: Seq<char>) -> spec_fn(String) -> bool {
    |s: String| s@ != name
}

/// The open groups after the group `name` was opened or closed.
pub open spec fn toggled(expanded: Seq<String>, name: String) -> Seq<String> {
    if has_name(expanded, name@) {
        expanded.filter(other_than(name@))
    } else {
        expanded.push(name)
    }
}

/// Opens the group `name`, or closes it where it is open.
pub fn toggle_name(expanded: &mut Vec<String>, name: String)
    ensures
        final(expanded)@ == toggled(old(expanded)@, name),
{
    if contains_name(expanded, name.as_str()) {
        let mut kept: Vec<String> = Vec::new();
        let mut i: usize = 0;
        while i < expanded.len()
            invariant
                i <= expanded.len(),
                expanded@ == old(expanded)@,
                kept@ == expanded@.take(i as int).filter(other_than(name@)),
            decreases expanded.len() - i,
        {
            proof {
                expanded@.lemma_take_succ_push(i as int);
                expanded@.take(i as int).lemma_filter_push(expanded@[i as int], other_than(name@));
            }
            if !same_text(expanded[i].as_str(), name.as_str()) {
                kept.push(expanded[i].clone());
            }
            i = i + 1;
        }
        proof {
            assert(expanded@.take(i as int) =~= expanded@);
        }
        *expanded = kept;
    } else {
        expanded.push(name);
    }
}

/// The text of an optional field, empty where there is none.
pub open spec fn text_or_empty(text: Option<String>) -> Seq<char> {
    match text {
        Some(s) => s@,
        None => Seq::empty(),
    }
}

/// What the buffer holds when the edit of a field begins: the value that
/// the task has in it.  The hours to log and to estimate begin empty.
pub open spec fn prefill(t: Task, field: InputField) -> Seq<char> {
    match field {
        InputField::Name => t.name@,
        InputField::Project => text_or_empty(t.project),
        InputField::Due => match day_number_text(t.due_date.days) {
            Some(text) => text,
            None => Seq::empty(),
        },
        InputField::Hours => hours_text(t.expected_hours),
        InputField::Recur => text_or_empty(t.recurrence),
        InputField::Template => text_or_empty(t.template),
        InputField::LogHours => Seq::empty(),
        InputField::EstimateHours => Seq::empty(),
        InputField::Unset => Seq::empty(),
    }
}

/// The text of an optional field, empty where there is none.
pub fn text_of(text: &Option<String>) -> (r: String)
    ensures
        r@ == text_or_empty(*text),
{
    match text {
        Some(s) => s.clone(),
        None => String::new(),
    }
}

/// What the buffer holds when the edit of a field begins.
pub fn prefill_text(t: &Task, field: InputField) -> (r: String)
    ensures
        r@ == prefill(*t, field),
{
    match field {
        InputField::Name => t.name.clone(),
        InputField::Project => text_of(&t.project),
        InputField::Due => match format_date(t.due_date) {
            Some(text) => text,
            None => String::new(),
        },
        InputField::Hours => t.expected_hours.to_text(),
        InputField::Recur => text_of(&t.recurrence),
        InputField::Template => text_of(&t.template),
        InputField::LogHours => String::new(),
        InputField::EstimateHours => String::new(),
        InputField::Unset => String::new(),
    }
}

/// A result without the value it carries.
pub open spec fn outcome_of<T>(r: Result<T, Error>) -> Result<(), Error> {
    match r {
        Ok(_) => Ok(()),
        Err(e) => Err(e),
    }
}

/// What confirming an edit does to the store, and what it returns: the
/// command for the field runs on the task `id` with the buffer, or with the
/// hours read from it; without such hours nothing runs.
pub open spec fn edit_applied(
    pre: Store,
    post: Store,
    r: Result<(), Error>,
    id: u64,
    field: InputField,
    buffer: String,
    parsed: Option<Hours>,
) -> bool {
    let idle = r == Ok::<(), Error>(()) && post == pre;
    match field {
        InputField::Name => edit_requested(
            pre,
            post,
            r,
            id,
            Some(buffer),
            None,
            None,
            None,
            None,
            None,
            None,
        ),
        InputField::Project => edit_requested(
            pre,
            post,
            r,
            id,
            None,
            Some(buffer),
            None,
            None,
            None,
            None,
            None,
        ),
        InputField::Due => edit_requested(
            pre,
            post,
            r,
            id,
            None,
            None,
            None,
            None,
            None,
            Some(buffer),
            None,
        ),
        InputField::Hours => match parsed {
            Some(h) => edit_requested(
                pre,
                post,
                r,
                id,
                None,
                None,
                None,
                Some(h),
                None,
                None,
                None,
            ),
            None => idle,
        },
        InputField::Recur => edit_requested(
            pre,
            post,
            r,
            id,
            None,
            None,
            None,
            None,
            None,
            None,
            Some(buffer),
        ),
        InputField::Template => edit_requested(
            pre,
            post,
            r,
            id,
            None,
            None,
            Some(buffer),
            None,
            None,
            None,
            None,
        ),
        InputField::LogHours => match parsed {
            Some(h) => hours_logged(pre, post, r, id, h),
            None => idle,
        },
        InputField::EstimateHours => match parsed {
            Some(h) => exists|e: Result<Hours, Error>| #[trigger]
                estimate_set(pre, post, e, id, h) && r == outcome_of(e),
            None => idle,
        },
        InputField::Unset => idle,
    }
}

/// What confirming an input of the edit mode does: without a target
/// nothing; else the edit is applied, the keyboard is back to commands, and
/// the tables are reloaded.
pub open spec fn editing_handled(
    pre: App,
    post: App,
    store_pre: Store,
    store_post: Store,
    r: Result<(), Error>,
    today: Date,
    parsed: Option<Hours>,
) -> bool {
    match pre.target_id {
        None => r == Ok::<(), Error>(()) && post == pre && store_post == store_pre,
        Some(id) => {
            &&& edit_applied(
                store_pre,
                store_post,
                r,
                id,
                pre.input_field,
                pre.input_buffer,
                parsed,
            )
            &&& reloaded(App { input_mode: InputMode::Normal, ..pre }, post, store_post, today)
        },
    }
}

/// What confirming an input of the add wizard does: the draft takes the
/// input; a complete draft is added to the store, the keyboard is back to
/// commands, and the tables are reloaded.
pub open spec fn adding_handled(
    pre: App,
    post: App,
    store_pre: Store,
    store_post: Store,
    r: Result<(), Error>,
    today: Date,
    parsed: Option<Hours>,
) -> bool {
    let (draft, action) = confirmed(pre.add_state, pre.view_mode, pre.input_buffer, parsed);
    match action {
        WizardAction::Stay => r == Ok::<(), Error>(()) && post == pre && store_post == store_pre,
        WizardAction::Advance => {
            &&& r == Ok::<(), Error>(())
            &&& store_post == store_pre
            &&& post.input_buffer@.len() == 0
            &&& post == (App { add_state: draft, input_buffer: post.input_buffer, ..pre })
        },
        WizardAction::AddFromTemplate => {
            &&& exists|a: Result<u64, Error>| #[trigger]
                add_requested(
                    store_pre,
                    store_post,
                    a,
                    draft.name,
                    None,
                    None,
                    draft.due@,
                    draft.template,
                    draft.recur,
                ) && r == outcome_of(a)
            &&& reloaded(
                App {
                    add_state: draft,
                    input_mode: InputMode::Normal,
                    view_mode: ViewMode::Tasks,
                    ..pre
                },
                post,
                store_post,
                today,
            )
        },
        WizardAction::AddTask => {
            &&& exists|a: Result<u64, Error>| #[trigger]
                add_requested(
                    store_pre,
                    store_post,
                    a,
                    draft.name,
                    draft.project,
                    draft.hours,
                    draft.due@,
                    draft.template,
                    draft.recur,
                ) && r == outcome_of(a)
            &&& reloaded(
                App { add_state: draft, input_mode: InputMode::Normal, ..pre },
                post,
                store_post,
                today,
            )
        },
        WizardAction::AddTemplate(hours) => {
            &&& template_added(store_pre, store_post, r, draft.name, draft.project, hours)
            &&& reloaded(
                App { add_state: draft, input_mode: InputMode::Normal, ..pre },
                post,
                store_post,
                today,
            )
        },
    }
}

/// The dashboard with the selection of the table in view one row down.
pub open spec fn moved_down(app: App) -> App {
    match app.view_mode {
        ViewMode::Tasks => App {
            state: stepped_down(app.state, app.display_items@.len()),
            ..app
        },
        ViewMode::Templates => App {
            template_state: stepped_down(app.template_state, app.templates@.len()),
            ..app
        },
    }
}

/// The dashboard with the selection of the table in view one row up.
pub open spec fn moved_up(app: App) -> App {
    match app.view_mode {
        ViewMode::Tasks => App { state: stepped_up(app.state, app.display_items@.len()), ..app },
        ViewMode::Templates => App {
            template_state: stepped_up(app.template_state, app.templates@.len()),
            ..app
        },
    }
}

/// The dashboard with the other table in view.
pub open spec fn view_toggled(app: App) -> App {
    App {
        view_mode: match app.view_mode {
            ViewMode::Tasks => ViewMode::Templates,
            ViewMode::Templates => ViewMode::Tasks,
        },
        ..app
    }
}

/// What completing the selected task does: without such a task nothing;
/// else the task is completed in the store and the tables are reloaded.
pub open spec fn selection_completed(
    pre: App,
    post: App,
    store_pre: Store,
    store_post: Store,
    r: Option<Result<Completion, Error>>,
    today: Date,
) -> bool {
    match selected_task(pre) {
        Some(t) => r.is_some() && completion_requested(store_pre, store_post, r.unwrap(), t.id)
            && reloaded(pre, post, store_post, today),
        None => r.is_none() && post == pre && store_post == store_pre,
    }
}

/// What deleting the selected row does: without a task or template in it
/// nothing; else that task or template is removed from the store and the
/// tables are reloaded.
pub open spec fn selection_deleted(
    pre: App,
    post: App,
    store_pre: Store,
    store_post: Store,
    r: Option<Result<(), Error>>,
    today: Date,
) -> bool {
    match pre.view_mode {
        ViewMode::Tasks => match selected_task(pre) {
            Some(t) => r.is_some() && task_removed(store_pre, store_post, r.unwrap(), t.id)
                && reloaded(pre, post, store_post, today),
            None => r.is_none() && post == pre && store_post == store_pre,
        },
        ViewMode::Templates => match selected_template(pre) {
            Some(t) => r.is_some() && template_removed(
                store_pre,
                store_post,
                r.unwrap(),
                t.name@,
            ) && reloaded(pre, post, store_post, today),
            None => r.is_none() && post == pre && store_post == store_pre,
        },
    }
}

/// Whether `post` is `pre` at the start of the add wizard: the keyboard
/// fills the buffer, which is empty, and the draft is blank.
pub open spec fn add_started(pre: App, post: App, template: Option<String>) -> bool {
    &&& post == (App {
        input_mode: InputMode::Adding,
        add_state: post.add_state,
        input_buffer: post.input_buffer,
        ..pre
    })
    &&& is_blank_draft(post.add_state, template)
    &&& post.input_buffer@.len() == 0
}

/// Whether `post` is `pre` at the start of the add wizard for the selected
/// template, or `pre` itself where no template is selected.
pub open spec fn template_add_started(pre: App, post: App) -> bool {
    match selected_template(pre) {
        Some(t) => add_started(pre, post, Some(t.name)),
        None => post == pre,
    }
}

/// Whether `post` is `pre` at the start of an edit of `field` on the
/// selected task, or `pre` itself where no task is selected.
pub open spec fn edit_started(pre: App, post: App, field: InputField) -> bool {
    match selected_task(pre) {
        Some(t) => post == (App {
            target_id: Some(t.id),
            input_mode: InputMode::Editing,
            input_field: field,
            input_buffer: post.input_buffer,
            ..pre
        }) && post.input_buffer@ == prefill(t, field),
        None => post == pre,
    }
}

/// What confirming an input does in the mode the keyboard is in.
pub open spec fn input_handled(
    pre: App,
    post: App,
    store_pre: Store,
    store_post: Store,
    r: Result<(), Error>,
    today: Date,
    parsed: Option<Hours>,
) -> bool {
    match pre.input_mode {
        InputMode::Adding => adding_handled(pre, post, store_pre, store_post, r, today, parsed),
        InputMode::Editing => editing_handled(pre, post, store_pre, store_post, r, today, parsed),
        InputMode::Normal => r == Ok::<(), Error>(()) && post == pre && store_post == store_pre,
    }
}

impl App {
    /// The dashboard as it starts: the task table in view, pending tasks
    /// only, not grouped, the first rows selected, the keyboard on commands.
    pub fn new(store: &Store, today: Date) -> (app: App)
        ensures
            app.view_mode == ViewMode::Tasks,
            app.input_mode == InputMode::Normal,
            app.input_field == InputField::Unset,
            app.input_buffer@.len() == 0,
            app.target_id.is_none(),
            is_blank_draft(app.add_state, None),
            !app.show_completed,
            !app.group_by_project,
            app.expanded_projects@.len() == 0,
            is_ranked(app.tasks@, store.tasks@.filter(visible(false)), today),
            rows_of(app.display_items@) == crate::grouping::flat_rows(app.tasks@),
            app.templates@ == store.templates@,
            app.state == clamped(None, app.display_items@.len()),
            app.template_state == clamped(None, store.templates@.len()),
    {
        let mut app = App {
            tasks: Vec::new(),
            display_items: Vec::new(),
            templates: Vec::new(),
            state: None,
            template_state: None,
            view_mode: ViewMode::Tasks,
            input_mode: InputMode::Normal,
            input_field: InputField::Unset,
            input_buffer: String::new(),
            target_id: None,
            add_state: AddState::new(),
            show_completed: false,
            group_by_project: false,
            expanded_projects: Vec::new(),
        };
        app.reload(store, today);
        app
    }

    /// Loads the tables from the store and holds the selections inside them.
    pub fn reload(&mut self, store: &Store, today: Date)
        ensures
            reloaded(*old(self), *final(self), *store, today),
    {
        let shown = visible_tasks(&store.tasks, self.show_completed);
        self.tasks = ranked(&shown, today);
        self.display_items =
        build_rows(&self.tasks, self.group_by_project, &self.expanded_projects);
        self.state = clamp_selection(self.state, self.display_items.len());
        self.templates = copy_templates(&store.templates);
        self.template_state = clamp_selection(self.template_state, self.templates.len());
    }

    /// The id of the task in the selected row.
    pub fn selected_task_id(&self) -> (r: Option<u64>)
        ensures
            r == (match selected_task(*self) {
                Some(t) => Some(t.id),
                None => None,
            }),
    {
        match (self.view_mode, self.state) {
            (ViewMode::Tasks, Some(i)) => if i < self.display_items.len() {
                match &self.display_items[i] {
                    DisplayItem::Task(t) => Some(t.id),
                    DisplayItem::ProjectHeader(_, _) => None,
                }
            } else {
                None
            },
            _ => None,
        }
    }

    /// Completes the task in the selected row and reloads the tables.
    /// Without such a task nothing happens.
    pub fn complete_selected(&mut self, store: &mut Store, today: Date) -> (r: Option<
        Result<Completion, Error>,
    >)
        ensures
            selection_completed(*old(self), *final(self), *old(store), *final(store), r, today),
            old(store).wf() ==> final(store).wf(),
    {
        match self.selected_task_id() {
            None => None,
            Some(id) => {
                let done = cmd_complete(store, id);
                self.reload(store, today);
                Some(done)
            },
        }
    }

    /// Removes the task or the template in the selected row of the table in
    /// view and reloads the tables.  Without such a row nothing happens.
    pub fn delete_selected(&mut self, store: &mut Store, today: Date) -> (r: Option<
        Result<(), Error>,
    >)
        ensures
            selection_deleted(*old(self), *final(self), *old(store), *final(store), r, today),
            old(store).wf() ==> final(store).wf(),
    {
        match self.view_mode {
            ViewMode::Tasks => match self.selected_task_id() {
                None => None,
                Some(id) => {
                    let removed = cmd_remove(store, id);
                    self.reload(store, today);
                    Some(removed)
                },
            },
            ViewMode::Templates => match self.template_state {
                None => None,
                Some(i) => if i < self.templates.len() {
                    let name = self.templates[i].name.clone();
                    let removed = cmd_template_remove(store, name);
                    self.reload(store, today);
                    Some(removed)
                } else {
                    None
                },
            },
        }
    }

    /// Shows or hides the completed tasks and reloads the tables.
    pub fn toggle_completed(&mut self, store: &Store, today: Date)
        ensures
            reloaded(
                App { show_completed: !old(self).show_completed, ..*old(self) },
                *final(self),
                *store,
                today,
            ),
    {
        self.show_completed = !self.show_completed;
        self.reload(store, today);
    }

    /// Groups the task table by project, or shows it flat again, and
    /// reloads the tables.
    pub fn toggle_group_view(&mut self, store: &Store, today: Date)
        ensures
            reloaded(
                App { group_by_project: !old(self).group_by_project, ..*old(self) },
                *final(self),
                *store,
                today,
            ),
    {
        self.group_by_project = !self.group_by_project;
        self.reload(store, today);
    }

    /// Opens or closes the group whose header is selected and reloads the
    /// tables; the header stays selected.  Without such a header nothing
    /// happens.
    pub fn toggle_project_expansion(&mut self, store: &Store, today: Date)
        ensures
            match selected_header(*old(self)) {
                Some(name) => tables_loaded(
                    App {
                        expanded_projects: final(self).expanded_projects,
                        ..*old(self)
                    },
                    *final(self),
                    *store,
                    today,
                ) && final(self).expanded_projects@ == toggled(
                    old(self).expanded_projects@,
                    name,
                ) && final(self).state == old(self).state,
                None => *final(self) == *old(self),
            },
    {
        match (self.view_mode, self.state) {
            (ViewMode::Tasks, Some(i)) => {
                if i < self.display_items.len() {
                    let label = match &self.display_items[i] {
                        DisplayItem::Task(_) => None,
                        DisplayItem::ProjectHeader(name, _) => Some(name.clone()),
                    };
                    match label {
                        None => {},
                        Some(name) => {
                            toggle_name(&mut self.expanded_projects, name);
                            self.reload(store, today);
                            self.state = Some(i);
                        },
                    }
                }
            },
            _ => {},
        }
    }

    /// Begins the add wizard with an empty draft.
    pub fn start_add(&mut self)
        ensures
            add_started(*old(self), *final(self), None),
    {
        self.input_mode = InputMode::Adding;
        self.add_state = AddState::new();
        self.input_buffer = String::new();
    }

    /// Begins the add wizard for a task made from the selected template.
    /// Without such a template nothing happens.
    pub fn start_add_from_template(&mut self)
        ensures
            template_add_started(*old(self), *final(self)),
    {
        match (self.view_mode, self.template_state) {
            (ViewMode::Templates, Some(i)) => {
                if i < self.templates.len() {
                    let name = self.templates[i].name.clone();
                    self.input_mode = InputMode::Adding;
                    self.add_state = AddState::new();
                    self.add_state.template = Some(name);
                    self.input_buffer = String::new();
                }
            },
            _ => {},
        }
    }

    /// Begins the edit of one field of the task in the selected row, with
    /// the field's value in the buffer.  Without such a task nothing happens.
    pub fn start_edit(&mut self, field: InputField)
        ensures
            edit_started(*old(self), *final(self), field),
    {
        match (self.view_mode, self.state) {
            (ViewMode::Tasks, Some(i)) => {
                if i < self.display_items.len() {
                    let found = match &self.display_items[i] {
                        DisplayItem::Task(t) => Some((t.id, prefill_text(t, field))),
                        DisplayItem::ProjectHeader(_, _) => None,
                    };
                    match found {
                        None => {},
                        Some((id, text)) => {
                            self.target_id = Some(id);
                            self.input_mode = InputMode::Editing;
                            self.input_field = field;
                            self.input_buffer = text;
                        },
                    }
                }
            },
            _ => {},
        }
    }

    /// Takes the confirmed input of the mode the keyboard is in; `parsed` is
    /// the number of hours read from the buffer, if it holds one.
    pub fn handle_input(&mut self, store: &mut Store, today: Date, parsed: Option<Hours>) -> (r:
        Result<(), Error>)
        ensures
            input_handled(*old(self), *final(self), *old(store), *final(store), r, today, parsed),
            old(store).wf() ==> final(store).wf(),
    {
        match self.input_mode {
            InputMode::Adding => self.handle_adding_input(store, today, parsed),
            InputMode::Editing => self.handle_editing_input(store, today, parsed),
            InputMode::Normal => Ok(()),
        }
    }

    /// Takes the confirmed input of the add wizard.
    pub fn handle_adding_input(
        &mut self,
        store: &mut Store,
        today: Date,
        parsed: Option<Hours>,
    ) -> (r: Result<(), Error>)
        ensures
            adding_handled(
                *old(self),
                *final(self),
                *old(store),
                *final(store),
                r,
                today,
                parsed,
            ),
            old(store).wf() ==> final(store).wf(),
    {
        let action = self.add_state.confirm(self.view_mode, &self.input_buffer, parsed);
        match action {
            WizardAction::Stay => Ok(()),
            WizardAction::Advance => {
                self.input_buffer = String::new();
                Ok(())
            },
            WizardAction::AddFromTemplate => {
                let added = cmd_add(
                    store,
                    self.add_state.name.clone(),
                    None,
                    None,
                    self.add_state.due.clone(),
                    copy_text(&self.add_state.template),
                    copy_text(&self.add_state.recur),
                );
                self.input_mode = InputMode::Normal;
                self.view_mode = ViewMode::Tasks;
                self.reload(store, today);
                match added {
                    Ok(_) => Ok(()),
                    Err(e) => Err(e),
                }
            },
            WizardAction::AddTask => {
                let added = cmd_add(
                    store,
                    self.add_state.name.clone(),
                    copy_text(&self.add_state.project),
                    self.add_state.hours,
                    self.add_state.due.clone(),
                    copy_text(&self.add_state.template),
                    copy_text(&self.add_state.recur),
                );
                self.input_mode = InputMode::Normal;
                self.reload(store, today);
                match added {
                    Ok(_) => Ok(()),
                    Err(e) => Err(e),
                }
            },
            WizardAction::AddTemplate(hours) => {
                let added = cmd_template_add(
                    store,
                    self.add_state.name.clone(),
                    copy_text(&self.add_state.project),
                    hours,
                );
                self.input_mode = InputMode::Normal;
                self.reload(store, today);
                added
            },
        }
    }

    /// Takes the confirmed input of the edit mode.
    pub fn handle_editing_input(
        &mut self,
        store: &mut Store,
        today: Date,
        parsed: Option<Hours>,
    ) -> (r: Result<(), Error>)
        ensures
            editing_handled(
                *old(self),
                *final(self),
                *old(store),
                *final(store),
                r,
                today,
                parsed,
            ),
            old(store).wf() ==> final(store).wf(),
    {
        let id = match self.target_id {
            None => {
                return Ok(());
            },
            Some(id) => id,
        };
        let text = self.input_buffer.clone();
        let r = match self.input_field {
            InputField::Name => cmd_edit(store, id, Some(text), None, None, None, None, None, None),
            InputField::Project => cmd_edit(
                store,
                id,
                None,
                Some(text),
                None,
                None,
                None,
                None,
                None,
            ),
            InputField::Due => cmd_edit(store, id, None, None, None, None, None, Some(text), None),
            InputField::Hours => match parsed {
                Some(h) => cmd_edit(store, id, None, None, None, Some(h), None, None, None),
                None => Ok(()),
            },
            InputField::Recur => cmd_edit(
                store,
                id,
                None,
                None,
                None,
                None,
                None,
                None,
                Some(text),
            ),
            InputField::Template => cmd_edit(
                store,
                id,
                None,
                None,
                Some(text),
                None,
                None,
                None,
                None,
            ),
            InputField::LogHours => match parsed {
                Some(h) => cmd_log(store, id, h),
                None => Ok(()),
            },
            InputField::EstimateHours => match parsed {
                Some(h) => {
                    let e = cmd_estimate(store, id, h);
                    match e {
                        Ok(_) => Ok(()),
                        Err(x) => Err(x),
                    }
                },
                None => Ok(()),
            },
            InputField::Unset => Ok(()),
        };
        self.input_mode = InputMode::Normal;
        self.reload(store, today);
        r
    }

    /// Selects the next row of the table in view.
    pub fn next(&mut self)
        ensures
            *final(self) == moved_down(*old(self)),
    {
        match self.view_mode {
            ViewMode::Tasks => {
                self.state = step_down(self.state, self.display_items.len());
            },
            ViewMode::Templates => {
                self.template_state = step_down(self.template_state, self.templates.len());
            },
        }
    }

    /// Selects the previous row of the table in view.
    pub fn previous(&mut self)
        ensures
            *final(self) == moved_up(*old(self)),
    {
        match self.view_mode {
            ViewMode::Tasks => {
                self.state = step_up(self.state, self.display_items.len());
            },
            ViewMode::Templates => {
                self.template_state = step_up(self.template_state, self.templates.len());
            },
        }
    }

    /// Switches between the task table and the template table.
    pub fn toggle_view(&mut self)
        ensures
            *final(self) == view_toggled(*old(self)),
    {
        self.view_mode =
        match self.view_mode {
            ViewMode::Tasks => ViewMode::Templates,
            ViewMode::Templates => ViewMode::Tasks,
        };
    }
}

} // verus!
