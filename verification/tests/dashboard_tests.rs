use taskust::commands::{add_task, cmd_complete, cmd_log};
use taskust::dashboard::{
    clamp_selection, step_down, step_up, AddState, App, DisplayItem, InputField, InputMode,
    ViewMode, WizardAction,
};
use taskust::grouping::{build_rows, project_names};
use taskust::keys::{command_for, Command, Flow, Key};
use taskust::models::{Date, Error, Hours};
use taskust::store::Store;
use taskust::templates::cmd_template_add;

const TODAY: Date = Date { days: 739_000 };

fn text(s: &str) -> Option<String> {
    Some(s.to_string())
}

fn add(store: &mut Store, name: &str, project: Option<&str>, hours: i64, due_in: i32) -> u64 {
    add_task(
        store,
        name.into(),
        project.map(|p| p.to_string()),
        Some(Hours::from_hundredths(hours)),
        Date { days: TODAY.days + due_in },
        None,
        None,
        "now".into(),
    )
    .unwrap()
}

fn sample() -> Store {
    let mut store = Store::new();
    add(&mut store, "late", Some("Work"), 100, -2); // 105
    add(&mut store, "soon", None, 100, 1); // 11.25
    add(&mut store, "far", Some("Home"), 100, 10); // 1.125
    add(&mut store, "far too", Some("Work"), 100, 10); // 1.125
    store
}

fn names(app: &App) -> Vec<String> {
    app.tasks.iter().map(|t| t.name.clone()).collect()
}

fn type_text(app: &mut App, store: &mut Store, s: &str) {
    for c in s.chars() {
        assert_eq!(app.handle_key(Key::Char(c), store, TODAY, None), Ok(Flow::Continue));
    }
}

#[test]
fn new_dashboard_shows_pending_tasks_by_urgency() {
    let mut store = sample();
    cmd_complete(&mut store, 2).unwrap();
    cmd_template_add(&mut store, "t".into(), None, Hours::from_hundredths(100)).unwrap();
    let app = App::new(&store, TODAY);
    assert_eq!(names(&app), vec!["late", "far", "far too"]);
    assert_eq!(app.display_items.len(), 3);
    assert_eq!(app.state, Some(0));
    assert_eq!(app.template_state, Some(0));
    assert_eq!(app.templates, store.templates);
    assert_eq!(app.view_mode, ViewMode::Tasks);
    assert_eq!(app.input_mode, InputMode::Normal);
    assert_eq!(app.input_field, InputField::Unset);
    assert!(!app.show_completed);

    let empty = App::new(&Store::new(), TODAY);
    assert_eq!(empty.state, None);
    assert_eq!(empty.template_state, None);
    assert!(empty.display_items.is_empty());
}

#[test]
fn selection_wraps_around() {
    assert_eq!(step_down(Some(0), 3), Some(1));
    assert_eq!(step_down(Some(2), 3), Some(0));
    assert_eq!(step_down(Some(7), 3), Some(0));
    assert_eq!(step_down(None, 3), Some(0));
    assert_eq!(step_down(Some(1), 0), Some(1));
    assert_eq!(step_up(Some(0), 3), Some(2));
    assert_eq!(step_up(Some(2), 3), Some(1));
    assert_eq!(step_up(None, 3), Some(0));
    assert_eq!(step_up(None, 0), None);
    assert_eq!(clamp_selection(Some(5), 3), Some(2));
    assert_eq!(clamp_selection(Some(1), 3), Some(1));
    assert_eq!(clamp_selection(None, 3), Some(0));
    assert_eq!(clamp_selection(Some(1), 0), None);

    let store = sample();
    let mut app = App::new(&store, TODAY);
    app.previous();
    assert_eq!(app.state, Some(3));
    app.next();
    assert_eq!(app.state, Some(0));
    app.toggle_view();
    assert_eq!(app.view_mode, ViewMode::Templates);
    app.next();
    assert_eq!(app.template_state, None);
    assert_eq!(app.state, Some(0));
}

#[test]
fn toggle_completed_shows_completed_tasks_last() {
    let mut store = sample();
    cmd_complete(&mut store, 1).unwrap();
    let mut app = App::new(&store, TODAY);
    assert_eq!(names(&app), vec!["soon", "far", "far too"]);
    app.toggle_completed(&store, TODAY);
    assert!(app.show_completed);
    assert_eq!(names(&app), vec!["soon", "far", "far too", "late"]);
    app.toggle_completed(&store, TODAY);
    assert_eq!(names(&app), vec!["soon", "far", "far too"]);
}

#[test]
fn grouping_lists_projects_in_dictionary_order() {
    let mut store = sample();
    add(&mut store, "z", Some("work"), 100, 3);
    add(&mut store, "y", Some("Wo"), 100, 3);
    let shown = App::new(&store, TODAY).tasks;
    assert_eq!(project_names(&shown), vec!["Home", "Wo", "Work", "work"]);
    assert_eq!(project_names(&Vec::new()), Vec::<String>::new());
}

#[test]
fn grouped_rows_show_headers_and_open_groups() {
    let store = sample();
    let mut app = App::new(&store, TODAY);
    app.toggle_group_view(&store, TODAY);
    assert!(app.group_by_project);
    assert_eq!(
        app.display_items,
        vec![
            DisplayItem::ProjectHeader("No Project".into(), 1),
            DisplayItem::ProjectHeader("Home".into(), 1),
            DisplayItem::ProjectHeader("Work".into(), 2),
        ]
    );
    assert_eq!(app.state, Some(0));

    // Open the last group.
    app.previous();
    assert_eq!(app.state, Some(2));
    app.toggle_project_expansion(&store, TODAY);
    assert_eq!(app.expanded_projects, vec!["Work".to_string()]);
    assert_eq!(app.state, Some(2));
    assert_eq!(app.display_items.len(), 5);
    assert_eq!(app.display_items[2], DisplayItem::ProjectHeader("Work".into(), 2));
    match (&app.display_items[3], &app.display_items[4]) {
        (DisplayItem::Task(a), DisplayItem::Task(b)) => {
            assert_eq!(a.name, "late");
            assert_eq!(b.name, "far too");
        }
        _ => panic!("the open group shows its tasks"),
    }

    // A task row is no header: nothing happens.
    app.next();
    let before = app.clone();
    app.toggle_project_expansion(&store, TODAY);
    assert_eq!(app, before);

    // Close it again.
    app.previous();
    app.toggle_project_expansion(&store, TODAY);
    assert!(app.expanded_projects.is_empty());
    assert_eq!(app.display_items.len(), 3);

    let rows = build_rows(&app.tasks, true, &vec!["No Project".to_string()]);
    assert_eq!(rows.len(), 4);
    assert_eq!(rows[0], DisplayItem::ProjectHeader("No Project".into(), 1));
    assert!(matches!(&rows[1], DisplayItem::Task(t) if t.name == "soon"));
}

#[test]
fn complete_selected_completes_and_reloads() {
    let mut store = sample();
    let mut app = App::new(&store, TODAY);
    app.next();
    let done = app.complete_selected(&mut store, TODAY);
    assert!(matches!(done, Some(Ok(_))));
    assert!(store.tasks[1].completed);
    assert_eq!(names(&app), vec!["late", "far", "far too"]);
    assert_eq!(app.state, Some(1));

    app.toggle_view();
    let store_before = store.clone();
    assert_eq!(app.complete_selected(&mut store, TODAY), None);
    assert_eq!(store, store_before);
}

#[test]
fn delete_selected_removes_the_row_in_view() {
    let mut store = sample();
    cmd_template_add(&mut store, "t".into(), None, Hours::from_hundredths(100)).unwrap();
    let mut app = App::new(&store, TODAY);
    assert_eq!(app.delete_selected(&mut store, TODAY), Some(Ok(())));
    assert_eq!(store.tasks.len(), 3);
    assert_eq!(names(&app), vec!["soon", "far", "far too"]);
    app.toggle_view();
    assert_eq!(app.delete_selected(&mut store, TODAY), Some(Ok(())));
    assert!(store.templates.is_empty());
    assert!(app.templates.is_empty());
    assert_eq!(app.template_state, None);
    assert_eq!(app.delete_selected(&mut store, TODAY), None);
}

#[test]
fn wizard_for_a_task_walks_six_steps() {
    let mut store = Store::new();
    let mut app = App::new(&store, TODAY);
    assert_eq!(app.handle_key(Key::Char('a'), &mut store, TODAY, None), Ok(Flow::Continue));
    assert_eq!(app.input_mode, InputMode::Adding);

    // An empty name does not advance.
    app.handle_key(Key::Enter, &mut store, TODAY, None).unwrap();
    assert_eq!(app.add_state.step, 0);
    type_text(&mut app, &mut store, "Write reporx");
    app.handle_key(Key::Backspace, &mut store, TODAY, None).unwrap();
    type_text(&mut app, &mut store, "t");
    assert_eq!(app.input_buffer, "Write report");
    app.handle_key(Key::Enter, &mut store, TODAY, None).unwrap();
    assert_eq!(app.add_state.step, 1);
    assert_eq!(app.add_state.name, "Write report");
    assert_eq!(app.input_buffer, "");

    type_text(&mut app, &mut store, "2025-12-01");
    app.handle_key(Key::Enter, &mut store, TODAY, None).unwrap();
    assert_eq!(app.add_state.step, 2);

    type_text(&mut app, &mut store, "Work");
    app.handle_key(Key::Enter, &mut store, TODAY, None).unwrap();
    assert_eq!(app.add_state.project, text("Work"));
    assert_eq!(app.add_state.step, 3);

    // Hours that are no number do not advance; empty hours mean one hour.
    type_text(&mut app, &mut store, "abc");
    app.handle_key(Key::Enter, &mut store, TODAY, None).unwrap();
    assert_eq!(app.add_state.step, 3);
    for _ in 0..3 {
        app.handle_key(Key::Backspace, &mut store, TODAY, None).unwrap();
    }
    type_text(&mut app, &mut store, "2.5");
    app.handle_key(Key::Enter, &mut store, TODAY, Some(Hours::from_hundredths(250))).unwrap();
    assert_eq!(app.add_state.hours, Some(Hours::from_hundredths(250)));
    assert_eq!(app.add_state.step, 4);

    app.handle_key(Key::Enter, &mut store, TODAY, None).unwrap();
    assert_eq!(app.add_state.recur, None);
    assert_eq!(app.add_state.step, 5);

    type_text(&mut app, &mut store, "reports");
    assert_eq!(app.handle_key(Key::Enter, &mut store, TODAY, None), Ok(Flow::Continue));
    assert_eq!(app.input_mode, InputMode::Normal);
    assert_eq!(store.tasks.len(), 1);
    let t = &store.tasks[0];
    assert_eq!(t.name, "Write report");
    assert_eq!(t.project, text("Work"));
    assert_eq!(t.expected_hours, Hours::from_hundredths(250));
    assert_eq!(t.template, text("reports"));
    assert_eq!(t.due_date, taskust::dates::parse_date("2025-12-01").unwrap());
    assert_eq!(store.templates.len(), 1);
    assert_eq!(app.tasks.len(), 1);
    assert_eq!(app.state, Some(0));
}

#[test]
fn wizard_defaults_empty_hours_to_one_hour() {
    let mut draft = AddState::new();
    draft.step = 3;
    let action = draft.confirm(ViewMode::Tasks, &String::new(), None);
    assert_eq!(action, WizardAction::Advance);
    assert_eq!(draft.hours, Some(Hours::from_hundredths(100)));
    assert_eq!(draft.step, 4);

    let mut draft = AddState::new();
    draft.step = 2;
    let action = draft.confirm(ViewMode::Templates, &"x".to_string(), None);
    assert_eq!(action, WizardAction::AddTemplate(Hours::from_hundredths(100)));
    assert_eq!(draft.step, 2);

    let mut draft = AddState::new();
    draft.step = 6;
    let before = draft.clone();
    assert_eq!(draft.confirm(ViewMode::Tasks, &"x".to_string(), None), WizardAction::Stay);
    assert_eq!(draft, before);
}

#[test]
fn wizard_from_a_template_walks_three_steps() {
    let mut store = Store::new();
    cmd_template_add(&mut store, "dev".into(), text("Coding"), Hours::from_hundredths(200))
        .unwrap();
    let mut app = App::new(&store, TODAY);
    // Enter does nothing in the task table.
    app.handle_key(Key::Enter, &mut store, TODAY, None).unwrap();
    assert_eq!(app.input_mode, InputMode::Normal);
    app.handle_key(Key::Char('v'), &mut store, TODAY, None).unwrap();
    app.handle_key(Key::Enter, &mut store, TODAY, None).unwrap();
    assert_eq!(app.input_mode, InputMode::Adding);
    assert_eq!(app.add_state.template, text("dev"));

    type_text(&mut app, &mut store, "Fix bug");
    app.handle_key(Key::Enter, &mut store, TODAY, None).unwrap();
    type_text(&mut app, &mut store, "2025-12-01");
    app.handle_key(Key::Enter, &mut store, TODAY, None).unwrap();
    type_text(&mut app, &mut store, "weekly");
    app.handle_key(Key::Enter, &mut store, TODAY, None).unwrap();

    assert_eq!(app.input_mode, InputMode::Normal);
    assert_eq!(app.view_mode, ViewMode::Tasks);
    assert_eq!(store.tasks.len(), 1);
    let t = &store.tasks[0];
    assert_eq!(t.project, text("Coding"));
    assert_eq!(t.expected_hours, Hours::from_hundredths(200));
    assert_eq!(t.recurrence, text("weekly"));
    assert_eq!(t.template, text("dev"));
    assert_eq!(store.templates.len(), 1);
}

#[test]
fn wizard_reports_a_bad_date_and_leaves_the_mode() {
    let mut store = Store::new();
    cmd_template_add(&mut store, "dev".into(), None, Hours::from_hundredths(200)).unwrap();
    let mut app = App::new(&store, TODAY);
    app.toggle_view();
    app.start_add_from_template();
    type_text(&mut app, &mut store, "Fix bug");
    app.handle_key(Key::Enter, &mut store, TODAY, None).unwrap();
    type_text(&mut app, &mut store, "next week");
    app.handle_key(Key::Enter, &mut store, TODAY, None).unwrap();
    let r = app.handle_key(Key::Enter, &mut store, TODAY, None);
    assert_eq!(r, Err(Error::InvalidDate));
    assert_eq!(app.input_mode, InputMode::Normal);
    assert!(store.tasks.is_empty());
}

#[test]
fn wizard_for_a_template_walks_three_steps() {
    let mut store = Store::new();
    let mut app = App::new(&store, TODAY);
    app.toggle_view();
    app.start_add();
    type_text(&mut app, &mut store, "dev");
    app.handle_key(Key::Enter, &mut store, TODAY, None).unwrap();
    app.handle_key(Key::Enter, &mut store, TODAY, None).unwrap();
    type_text(&mut app, &mut store, "1.5");
    let r = app.handle_input(&mut store, TODAY, Some(Hours::from_hundredths(150)));
    assert_eq!(r, Ok(()));
    assert_eq!(store.templates.len(), 1);
    assert_eq!(store.templates[0].name, "dev");
    assert_eq!(store.templates[0].project, None);
    assert_eq!(store.templates[0].default_hours, Hours::from_hundredths(150));
    assert_eq!(app.templates.len(), 1);
    assert_eq!(app.template_state, Some(0));

    // The same name again is refused.
    app.start_add();
    type_text(&mut app, &mut store, "dev");
    app.handle_key(Key::Enter, &mut store, TODAY, None).unwrap();
    app.handle_key(Key::Enter, &mut store, TODAY, None).unwrap();
    let r = app.handle_key(Key::Enter, &mut store, TODAY, None);
    assert_eq!(r, Err(Error::AlreadyExists));
    assert_eq!(store.templates.len(), 1);
}

#[test]
fn escape_leaves_the_mode_with_an_empty_buffer() {
    let mut store = sample();
    let mut app = App::new(&store, TODAY);
    app.start_add();
    type_text(&mut app, &mut store, "abc");
    app.handle_key(Key::Esc, &mut store, TODAY, None).unwrap();
    assert_eq!(app.input_mode, InputMode::Normal);
    assert_eq!(app.input_buffer, "");
    app.handle_key(Key::Backspace, &mut store, TODAY, None).unwrap();
    assert_eq!(app.input_buffer, "");
    assert_eq!(store, sample());
}

#[test]
fn start_edit_fills_the_buffer_with_the_field() {
    let mut store = sample();
    cmd_log(&mut store, 1, Hours::from_hundredths(25)).unwrap();
    let mut app = App::new(&store, TODAY);
    app.start_edit(InputField::Name);
    assert_eq!(app.input_mode, InputMode::Editing);
    assert_eq!(app.target_id, Some(1));
    assert_eq!(app.input_buffer, "late");
    app.start_edit(InputField::Project);
    assert_eq!(app.input_buffer, "Work");
    app.start_edit(InputField::Hours);
    assert_eq!(app.input_buffer, "1.00");
    app.start_edit(InputField::Recur);
    assert_eq!(app.input_buffer, "");
    app.start_edit(InputField::LogHours);
    assert_eq!(app.input_buffer, "");
    app.start_edit(InputField::Due);
    assert_eq!(
        Some(app.input_buffer.clone()),
        taskust::dates::format_date(Date { days: TODAY.days - 2 })
    );
    assert_eq!(Hours::from_hundredths(-25).to_text(), "-0.25");
    assert_eq!(Hours::from_hundredths(12345).to_text(), "123.45");
    assert_eq!(Hours::from_hundredths(i64::MIN).to_text(), "-92233720368547758.08");
}

#[test]
fn editing_applies_the_field_and_reloads() {
    let mut store = sample();
    let mut app = App::new(&store, TODAY);
    app.handle_key(Key::Char('n'), &mut store, TODAY, None).unwrap();
    assert_eq!(app.input_field, InputField::Name);
    type_text(&mut app, &mut store, "r");
    assert_eq!(app.handle_key(Key::Enter, &mut store, TODAY, None), Ok(Flow::Continue));
    assert_eq!(store.tasks[0].name, "later");
    assert_eq!(app.input_mode, InputMode::Normal);
    assert_eq!(names(&app)[0], "later");

    app.start_edit(InputField::LogHours);
    assert_eq!(app.handle_input(&mut store, TODAY, Some(Hours::from_hundredths(150))), Ok(()));
    assert_eq!(store.tasks[0].hours_worked, Hours::from_hundredths(150));

    app.start_edit(InputField::EstimateHours);
    assert_eq!(app.handle_input(&mut store, TODAY, Some(Hours::from_hundredths(200))), Ok(()));
    assert_eq!(store.tasks[0].expected_hours, Hours::from_hundredths(350));

    // Hours that are no number change nothing in the store.
    app.start_edit(InputField::Hours);
    let before = store.clone();
    assert_eq!(app.handle_input(&mut store, TODAY, None), Ok(()));
    assert_eq!(store, before);
    assert_eq!(app.input_mode, InputMode::Normal);

    app.start_edit(InputField::Due);
    app.input_buffer = "soon".into();
    assert_eq!(app.handle_input(&mut store, TODAY, None), Err(Error::InvalidDate));
    assert_eq!(store, before);

    app.start_edit(InputField::Template);
    app.input_buffer = "fresh".into();
    assert_eq!(app.handle_input(&mut store, TODAY, None), Ok(()));
    assert_eq!(store.tasks[0].template, text("fresh"));
    assert_eq!(store.templates.len(), 1);
}

#[test]
fn keys_map_to_commands() {
    assert_eq!(command_for(Key::Char('q')), Command::Quit);
    assert_eq!(command_for(Key::Char('j')), Command::Next);
    assert_eq!(command_for(Key::Down), Command::Next);
    assert_eq!(command_for(Key::Char('k')), Command::Previous);
    assert_eq!(command_for(Key::Up), Command::Previous);
    assert_eq!(command_for(Key::Char(' ')), Command::Complete);
    assert_eq!(command_for(Key::Char('d')), Command::Delete);
    assert_eq!(command_for(Key::Delete), Command::Delete);
    assert_eq!(command_for(Key::Char('a')), Command::StartAdd);
    assert_eq!(command_for(Key::Char('n')), Command::StartEdit(InputField::Name));
    assert_eq!(command_for(Key::Char('p')), Command::StartEdit(InputField::Project));
    assert_eq!(command_for(Key::Char('t')), Command::StartEdit(InputField::Due));
    assert_eq!(command_for(Key::Char('h')), Command::StartEdit(InputField::Hours));
    assert_eq!(command_for(Key::Char('r')), Command::StartEdit(InputField::Recur));
    assert_eq!(command_for(Key::Char('m')), Command::StartEdit(InputField::Template));
    assert_eq!(command_for(Key::Char('l')), Command::StartEdit(InputField::LogHours));
    assert_eq!(command_for(Key::Char('u')), Command::StartEdit(InputField::EstimateHours));
    assert_eq!(command_for(Key::Char('c')), Command::ToggleCompleted);
    assert_eq!(command_for(Key::Char('v')), Command::ToggleView);
    assert_eq!(command_for(Key::Enter), Command::AddFromTemplate);
    assert_eq!(command_for(Key::Char('x')), Command::Ignore);
    assert_eq!(command_for(Key::Esc), Command::Ignore);
    assert_eq!(command_for(Key::Other), Command::Ignore);

    let mut store = sample();
    let mut app = App::new(&store, TODAY);
    assert_eq!(app.handle_key(Key::Char('q'), &mut store, TODAY, None), Ok(Flow::Quit));
    assert_eq!(app.handle_key(Key::Char('j'), &mut store, TODAY, None), Ok(Flow::Continue));
    assert_eq!(app.state, Some(1));
    assert_eq!(app.handle_key(Key::Char(' '), &mut store, TODAY, None), Ok(Flow::Continue));
    assert!(store.tasks[1].completed);
    assert_eq!(app.handle_key(Key::Char('c'), &mut store, TODAY, None), Ok(Flow::Continue));
    assert_eq!(app.tasks.len(), 4);
}
