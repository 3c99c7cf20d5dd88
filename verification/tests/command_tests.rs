use taskust::commands::{
    add_task, cmd_add, cmd_archive, cmd_complete, cmd_edit, cmd_estimate, cmd_log, cmd_remove,
    complete_task, edit_task,
};
use taskust::dates::{format_date, get_next_recurrence, parse_date};
use taskust::models::{Date, Error, Hours};
use taskust::store::Store;
use taskust::templates::{
    cmd_template_add, cmd_template_edit, cmd_template_remove, recalculate_template_average,
};

fn hours(h: i64) -> Hours {
    Hours::from_hundredths(h * 100)
}

fn text(s: &str) -> Option<String> {
    Some(s.to_string())
}

#[test]
fn test_add_and_list() {
    let mut store = Store::new();
    let r = cmd_add(
        &mut store,
        "Test Task".into(),
        Some("Project".into()),
        Some(hours(1)),
        "2025-12-01".into(),
        None,
        None,
    );
    assert_eq!(r, Ok(1));

    let tasks = &store.tasks;
    assert_eq!(tasks.len(), 1);
    assert_eq!(tasks[0].name, "Test Task");
    assert_eq!(tasks[0].project, Some("Project".into()));
}

#[test]
fn test_complete_task() {
    let mut store = Store::new();
    cmd_add(&mut store, "Task to complete".into(), None, None, "2025-12-01".into(), None, None).unwrap();
    let id = store.tasks[0].id;

    cmd_complete(&mut store, id).unwrap();

    let tasks = &store.tasks;
    assert!(tasks[0].completed);
    assert!(tasks[0].completed_at.is_some());
}

#[test]
fn test_archive_task() {
    let mut store = Store::new();
    cmd_add(&mut store, "Task to archive".into(), None, None, "2025-12-01".into(), None, None).unwrap();
    let id = store.tasks[0].id;

    cmd_complete(&mut store, id).unwrap();

    // Archive all completed tasks
    let moved = cmd_archive(&mut store, None);
    assert_eq!(moved, 1);

    assert!(store.tasks.is_empty());

    let archived = &store.archive;
    assert_eq!(archived.len(), 1);
    assert_eq!(archived[0].id, id);
}

#[test]
fn test_recurrence() {
    let mut store = Store::new();
    cmd_add(&mut store, "Recurring Task".into(), None, None, "2025-12-01".into(), None, text("daily"))
        .unwrap();
    let id = store.tasks[0].id;

    cmd_complete(&mut store, id).unwrap();

    let tasks = &store.tasks;
    // Should have 2 tasks: one completed, one new
    assert_eq!(tasks.len(), 2);

    let completed = tasks.iter().find(|t| t.completed).unwrap();
    let new_task = tasks.iter().find(|t| !t.completed).unwrap();

    assert_eq!(completed.name, "Recurring Task");
    assert_eq!(new_task.name, "Recurring Task");
    assert_ne!(completed.id, new_task.id);
}

#[test]
fn test_template_creation_and_usage() {
    let mut store = Store::new();
    // Create a template
    cmd_template_add(&mut store, "dev".into(), Some("Coding".into()), hours(2)).unwrap();

    let templates = &store.templates;
    assert_eq!(templates.len(), 1);
    assert_eq!(templates[0].name, "dev");
    assert_eq!(templates[0].default_hours, hours(2));

    // Create task using template
    cmd_add(&mut store, "Task 1".into(), None, None, "2025-12-01".into(), text("dev"), None).unwrap();

    let tasks = &store.tasks;
    assert_eq!(tasks.len(), 1);
    assert_eq!(tasks[0].project, Some("Coding".into()));
    assert_eq!(tasks[0].expected_hours, hours(2));
    assert_eq!(tasks[0].template, Some("dev".into()));
}

#[test]
fn test_template_auto_update() {
    let mut store = Store::new();
    cmd_template_add(&mut store, "writing".into(), Some("Docs".into()), hours(1)).unwrap();

    // Add task with template
    cmd_add(&mut store, "Doc 1".into(), None, None, "2025-12-01".into(), text("writing"), None).unwrap();
    let id = store.tasks[0].id;

    // Log more hours than expected (3.0 total)
    cmd_log(&mut store, id, hours(3)).unwrap();

    // Complete task
    cmd_complete(&mut store, id).unwrap();

    // Check template updated
    let templates = &store.templates;
    assert_eq!(templates[0].name, "writing");
    assert_eq!(templates[0].default_hours, hours(3));
}

#[test]
fn test_template_remove() {
    let mut store = Store::new();
    cmd_template_add(&mut store, "temp".into(), None, hours(1)).unwrap();
    cmd_add(&mut store, "Task".into(), None, None, "2025-12-01".into(), text("temp"), None).unwrap();

    cmd_template_remove(&mut store, "temp".into()).unwrap();

    assert!(store.templates.is_empty());
    assert_eq!(store.tasks[0].template, None);
}

#[test]
fn add_rejects_a_bad_date_and_changes_nothing() {
    let mut store = Store::new();
    let r = cmd_add(&mut store, "x".into(), None, None, "2025-13-01".into(), text("t"), None);
    assert_eq!(r, Err(Error::InvalidDate));
    let r = cmd_add(&mut store, "x".into(), None, None, "tomorrow".into(), None, None);
    assert_eq!(r, Err(Error::InvalidDate));
    assert_eq!(store, Store::new());
}

#[test]
fn add_gives_ids_after_the_largest() {
    let mut store = Store::new();
    let day = parse_date("2025-12-01").unwrap();
    for expected in 1..=3u64 {
        let r = add_task(&mut store, "t".into(), None, None, day, None, None, "now".into());
        assert_eq!(r, Ok(expected));
    }
    cmd_remove(&mut store, 2).unwrap();
    let r = add_task(&mut store, "t".into(), None, None, day, None, None, "now".into());
    assert_eq!(r, Ok(4));
    let ids: Vec<u64> = store.tasks.iter().map(|t| t.id).collect();
    assert_eq!(ids, vec![1, 3, 4]);
}

#[test]
fn add_refuses_an_id_beyond_the_largest_number() {
    let mut store = Store::new();
    let day = parse_date("2025-12-01").unwrap();
    add_task(&mut store, "t".into(), None, None, day, None, None, "now".into()).unwrap();
    store.tasks[0].id = u64::MAX;
    let before = store.clone();
    let r = add_task(&mut store, "u".into(), None, None, day, text("tmpl"), None, "now".into());
    assert_eq!(r, Err(Error::OutOfRange));
    assert_eq!(store, before);
}

#[test]
fn add_defaults_to_one_hour_and_holds_the_estimate_at_zero() {
    let mut store = Store::new();
    let day = parse_date("2025-12-01").unwrap();
    add_task(&mut store, "a".into(), None, None, day, None, None, "now".into()).unwrap();
    add_task(
        &mut store,
        "b".into(),
        None,
        Some(Hours::from_hundredths(-250)),
        day,
        None,
        None,
        "now".into(),
    )
    .unwrap();
    assert_eq!(store.tasks[0].expected_hours, hours(1));
    assert_eq!(store.tasks[0].hours_worked, Hours::zero());
    assert_eq!(store.tasks[0].created_at, "now");
    assert!(!store.tasks[0].completed);
    assert_eq!(store.tasks[0].completed_at, None);
    assert_eq!(store.tasks[1].expected_hours, Hours::zero());
}

#[test]
fn add_with_unknown_template_creates_exactly_one_template() {
    let mut store = Store::new();
    cmd_add(
        &mut store,
        "Task".into(),
        text("Home"),
        Some(Hours::from_hundredths(250)),
        "2025-12-01".into(),
        text("chores"),
        None,
    )
    .unwrap();
    assert_eq!(store.templates.len(), 1);
    assert_eq!(store.templates[0].name, "chores");
    assert_eq!(store.templates[0].project, text("Home"));
    assert_eq!(store.templates[0].default_hours, Hours::from_hundredths(250));
    assert_eq!(store.tasks[0].template, text("chores"));

    // A second task on the same template makes no new template and takes
    // the fields it was not given from it.
    cmd_add(&mut store, "Task 2".into(), None, None, "2025-12-02".into(), text("chores"), None).unwrap();
    assert_eq!(store.templates.len(), 1);
    assert_eq!(store.tasks[1].project, text("Home"));
    assert_eq!(store.tasks[1].expected_hours, Hours::from_hundredths(250));

    // Fields that are given win over the template.
    cmd_add(&mut store, "Task 3".into(), text("Work"), Some(hours(4)), "2025-12-02".into(), text("chores"), None)
        .unwrap();
    assert_eq!(store.tasks[2].project, text("Work"));
    assert_eq!(store.tasks[2].expected_hours, hours(4));
    assert_eq!(store.templates.len(), 1);
}

#[test]
fn completing_a_daily_task_spawns_the_next_day() {
    let mut store = Store::new();
    cmd_add(&mut store, "Standup".into(), text("Work"), Some(hours(2)), "2025-12-01".into(), None, text("daily"))
        .unwrap();
    cmd_log(&mut store, 1, hours(1)).unwrap();
    let done = complete_task(&mut store, 1, "2025-12-01T09:00:00+00:00".into()).unwrap();
    assert_eq!(done.spawned, Some(2));
    assert!(!done.unknown_recurrence);
    assert_eq!(done.new_average, None);
    assert_eq!(store.tasks.len(), 2);
    assert!(store.tasks[0].completed);
    assert_eq!(store.tasks[0].completed_at, text("2025-12-01T09:00:00+00:00"));
    let next = &store.tasks[1];
    assert_eq!(next.id, 2);
    assert!(!next.completed);
    assert_eq!(next.completed_at, None);
    assert_eq!(next.due_date, parse_date("2025-12-02").unwrap());
    assert_eq!(next.name, "Standup");
    assert_eq!(next.project, text("Work"));
    assert_eq!(next.expected_hours, hours(2));
    assert_eq!(next.hours_worked, Hours::zero());
    assert_eq!(next.recurrence, text("daily"));
    assert_eq!(next.created_at, "2025-12-01T09:00:00+00:00");
}

#[test]
fn recurrence_steps_are_one_seven_and_thirty_days() {
    let day = parse_date("2025-12-01").unwrap();
    assert_eq!(get_next_recurrence("daily", day), Ok(Some(parse_date("2025-12-02").unwrap())));
    assert_eq!(get_next_recurrence("weekly", day), Ok(Some(parse_date("2025-12-08").unwrap())));
    assert_eq!(get_next_recurrence("monthly", day), Ok(Some(parse_date("2025-12-31").unwrap())));
    assert_eq!(get_next_recurrence("Weekly", day), Ok(Some(Date { days: day.days + 7 })));
    assert_eq!(get_next_recurrence("MONTHLY", day), Ok(Some(Date { days: day.days + 30 })));
    assert_eq!(get_next_recurrence("yearly", day), Ok(None));
    assert_eq!(get_next_recurrence("", day), Ok(None));
}

#[test]
fn recurrence_beyond_the_calendar_is_out_of_range() {
    let last = Date { days: taskust::models::DATE_MAX_DAYS };
    assert_eq!(get_next_recurrence("daily", last), Err(Error::OutOfRange));
    let mut store = Store::new();
    add_task(&mut store, "t".into(), None, None, last, None, text("daily"), "now".into()).unwrap();
    let before = store.clone();
    assert_eq!(complete_task(&mut store, 1, "later".into()), Err(Error::OutOfRange));
    assert_eq!(store, before);
}

#[test]
fn completing_with_unknown_recurrence_warns_and_completes() {
    let mut store = Store::new();
    cmd_add(&mut store, "t".into(), None, None, "2025-12-01".into(), None, text("fortnightly")).unwrap();
    let done = cmd_complete(&mut store, 1).unwrap();
    assert!(done.unknown_recurrence);
    assert_eq!(done.spawned, None);
    assert_eq!(store.tasks.len(), 1);
    assert!(store.tasks[0].completed);
}

#[test]
fn completing_a_missing_task_is_not_found() {
    let mut store = Store::new();
    assert_eq!(cmd_complete(&mut store, 7), Err(Error::NotFound));
    assert_eq!(store, Store::new());
}

#[test]
fn completion_time_is_set_once() {
    let mut store = Store::new();
    cmd_add(&mut store, "t".into(), None, None, "2025-12-01".into(), None, None).unwrap();
    complete_task(&mut store, 1, "first".into()).unwrap();
    complete_task(&mut store, 1, "second".into()).unwrap();
    assert_eq!(store.tasks[0].completed_at, text("first"));
    for t in &store.tasks {
        assert_eq!(t.completed, t.completed_at.is_some());
    }
}

#[test]
fn template_average_is_the_mean_rounded_down() {
    let mut store = Store::new();
    cmd_template_add(&mut store, "w".into(), None, hours(9)).unwrap();
    for _ in 0..3 {
        cmd_add(&mut store, "t".into(), None, None, "2025-12-01".into(), text("w"), None).unwrap();
    }
    cmd_log(&mut store, 1, hours(1)).unwrap();
    cmd_log(&mut store, 2, hours(1)).unwrap();
    cmd_log(&mut store, 3, hours(2)).unwrap();
    let done = cmd_complete(&mut store, 1).unwrap();
    assert_eq!(done.new_average, Some(hours(1)));
    cmd_complete(&mut store, 2).unwrap();
    let done = cmd_complete(&mut store, 3).unwrap();
    // (1.00 + 1.00 + 2.00) / 3 = 1.33 and a third of a hundredth
    assert_eq!(done.new_average, Some(Hours::from_hundredths(133)));
    assert_eq!(store.templates[0].default_hours, Hours::from_hundredths(133));
}

#[test]
fn template_average_rounds_negative_means_down() {
    let mut store = Store::new();
    cmd_template_add(&mut store, "w".into(), None, hours(9)).unwrap();
    cmd_add(&mut store, "a".into(), None, None, "2025-12-01".into(), text("w"), None).unwrap();
    cmd_add(&mut store, "b".into(), None, None, "2025-12-01".into(), text("w"), None).unwrap();
    cmd_log(&mut store, 1, Hours::from_hundredths(-1)).unwrap();
    cmd_complete(&mut store, 1).unwrap();
    cmd_complete(&mut store, 2).unwrap();
    // (-0.01 + 0.00) / 2 lies between -0.01 and 0.00
    assert_eq!(store.templates[0].default_hours, Hours::from_hundredths(-1));
}

#[test]
fn template_average_without_completed_tasks_changes_nothing() {
    let mut store = Store::new();
    cmd_template_add(&mut store, "w".into(), None, hours(9)).unwrap();
    cmd_add(&mut store, "a".into(), None, None, "2025-12-01".into(), text("w"), None).unwrap();
    assert_eq!(recalculate_template_average(&mut store, "w"), None);
    assert_eq!(store.templates[0].default_hours, hours(9));
    // A dangling reference is no error either.
    cmd_add(&mut store, "b".into(), None, None, "2025-12-01".into(), text("gone"), None).unwrap();
    cmd_template_remove(&mut store, "gone".into()).unwrap();
    store.tasks[1].template = text("gone");
    let done = cmd_complete(&mut store, 2).unwrap();
    assert_eq!(done.new_average, None);
    assert_eq!(store.templates.len(), 1);
}

#[test]
fn template_add_twice_already_exists() {
    let mut store = Store::new();
    cmd_template_add(&mut store, "dev".into(), None, hours(2)).unwrap();
    let r = cmd_template_add(&mut store, "dev".into(), text("Other"), hours(5));
    assert_eq!(r, Err(Error::AlreadyExists));
    assert_eq!(store.templates.len(), 1);
    assert_eq!(store.templates[0].default_hours, hours(2));
    // Names are case-sensitive.
    assert_eq!(cmd_template_add(&mut store, "Dev".into(), None, hours(1)), Ok(()));
}

#[test]
fn template_edit_writes_only_what_is_given() {
    let mut store = Store::new();
    cmd_template_add(&mut store, "dev".into(), text("Coding"), hours(2)).unwrap();
    cmd_template_edit(&mut store, "dev".into(), None, Some(hours(5))).unwrap();
    assert_eq!(store.templates[0].project, text("Coding"));
    assert_eq!(store.templates[0].default_hours, hours(5));
    cmd_template_edit(&mut store, "dev".into(), text("Ops"), None).unwrap();
    assert_eq!(store.templates[0].project, text("Ops"));
    assert_eq!(store.templates[0].default_hours, hours(5));
    assert_eq!(cmd_template_edit(&mut store, "nope".into(), None, None), Err(Error::NotFound));
}

#[test]
fn template_remove_clears_every_reference_and_only_those() {
    let mut store = Store::new();
    cmd_template_add(&mut store, "a".into(), None, hours(1)).unwrap();
    cmd_template_add(&mut store, "b".into(), None, hours(1)).unwrap();
    cmd_add(&mut store, "1".into(), None, None, "2025-12-01".into(), text("a"), None).unwrap();
    cmd_add(&mut store, "2".into(), None, None, "2025-12-01".into(), text("b"), None).unwrap();
    cmd_add(&mut store, "3".into(), None, None, "2025-12-01".into(), text("a"), None).unwrap();
    cmd_add(&mut store, "4".into(), None, None, "2025-12-01".into(), None, None).unwrap();
    cmd_template_remove(&mut store, "a".into()).unwrap();
    assert_eq!(store.templates.len(), 1);
    assert_eq!(store.templates[0].name, "b");
    assert_eq!(store.tasks[0].template, None);
    assert_eq!(store.tasks[1].template, text("b"));
    assert_eq!(store.tasks[2].template, None);
    assert_eq!(store.tasks[3].template, None);
    let before = store.clone();
    assert_eq!(cmd_template_remove(&mut store, "a".into()), Err(Error::NotFound));
    assert_eq!(cmd_template_remove(&mut store, "never".into()), Err(Error::NotFound));
    assert_eq!(store, before);
}

#[test]
fn log_zero_leaves_hours_unchanged() {
    let mut store = Store::new();
    cmd_add(&mut store, "t".into(), None, None, "2025-12-01".into(), None, None).unwrap();
    cmd_log(&mut store, 1, Hours::from_hundredths(150)).unwrap();
    assert_eq!(cmd_log(&mut store, 1, Hours::zero()), Ok(()));
    assert_eq!(store.tasks[0].hours_worked, Hours::from_hundredths(150));
    // A negative amount takes effort away.
    assert_eq!(cmd_log(&mut store, 1, Hours::from_hundredths(-200)), Ok(()));
    assert_eq!(store.tasks[0].hours_worked, Hours::from_hundredths(-50));
    assert_eq!(cmd_log(&mut store, 9, hours(1)), Err(Error::NotFound));
}

#[test]
fn log_stops_at_the_ends_of_the_range() {
    let mut store = Store::new();
    cmd_add(&mut store, "t".into(), None, None, "2025-12-01".into(), None, None).unwrap();
    cmd_log(&mut store, 1, Hours::from_hundredths(i64::MAX)).unwrap();
    cmd_log(&mut store, 1, Hours::from_hundredths(5)).unwrap();
    assert_eq!(store.tasks[0].hours_worked, Hours::from_hundredths(i64::MAX));
    assert_eq!(
        Hours::from_hundredths(i64::MIN).plus(Hours::from_hundredths(-1)),
        Hours::from_hundredths(i64::MIN)
    );
}

#[test]
fn estimate_is_worked_plus_remaining() {
    let mut store = Store::new();
    cmd_add(&mut store, "t".into(), None, Some(hours(8)), "2025-12-01".into(), None, None).unwrap();
    cmd_log(&mut store, 1, Hours::from_hundredths(150)).unwrap();
    let r = cmd_estimate(&mut store, 1, Hours::from_hundredths(200));
    assert_eq!(r, Ok(Hours::from_hundredths(350)));
    assert_eq!(store.tasks[0].expected_hours, Hours::from_hundredths(350));
    assert_eq!(store.tasks[0].hours_worked, Hours::from_hundredths(150));
    assert_eq!(cmd_estimate(&mut store, 2, hours(1)), Err(Error::NotFound));
}

#[test]
fn remove_deletes_the_task_or_reports_not_found() {
    let mut store = Store::new();
    cmd_add(&mut store, "a".into(), None, None, "2025-12-01".into(), None, None).unwrap();
    cmd_add(&mut store, "b".into(), None, None, "2025-12-01".into(), None, None).unwrap();
    assert_eq!(cmd_remove(&mut store, 1), Ok(()));
    assert_eq!(store.tasks.len(), 1);
    assert_eq!(store.tasks[0].name, "b");
    assert_eq!(cmd_remove(&mut store, 1), Err(Error::NotFound));
    assert_eq!(store.tasks.len(), 1);
}

#[test]
fn edit_writes_only_what_is_given() {
    let mut store = Store::new();
    cmd_add(&mut store, "a".into(), text("P"), Some(hours(2)), "2025-12-01".into(), None, None).unwrap();
    cmd_edit(&mut store, 1, text("b"), None, None, None, None, None, None).unwrap();
    assert_eq!(store.tasks[0].name, "b");
    assert_eq!(store.tasks[0].project, text("P"));
    cmd_edit(&mut store, 1, None, text("Q"), None, Some(hours(3)), Some(hours(1)), text("2026-01-15"), text("weekly"))
        .unwrap();
    let t = &store.tasks[0];
    assert_eq!(t.name, "b");
    assert_eq!(t.project, text("Q"));
    assert_eq!(t.expected_hours, hours(3));
    assert_eq!(t.hours_worked, hours(1));
    assert_eq!(t.due_date, parse_date("2026-01-15").unwrap());
    assert_eq!(t.recurrence, text("weekly"));
    assert_eq!(t.id, 1);
}

#[test]
fn edit_with_a_bad_date_changes_nothing() {
    let mut store = Store::new();
    cmd_add(&mut store, "a".into(), None, None, "2025-12-01".into(), None, None).unwrap();
    let before = store.clone();
    let r = cmd_edit(&mut store, 1, text("b"), None, text("fresh"), None, None, text("01/02/2026"), None);
    assert_eq!(r, Err(Error::InvalidDate));
    assert_eq!(store, before);
    let r = cmd_edit(&mut store, 5, text("b"), None, None, None, None, text("01/02/2026"), None);
    assert_eq!(r, Err(Error::NotFound));
    let r = cmd_edit(&mut store, 5, text("b"), None, None, None, None, None, None);
    assert_eq!(r, Err(Error::NotFound));
    assert_eq!(store, before);
}

#[test]
fn edit_with_a_new_template_name_creates_the_template() {
    let mut store = Store::new();
    cmd_add(&mut store, "a".into(), text("P"), Some(hours(2)), "2025-12-01".into(), None, None).unwrap();
    let day = parse_date("2025-12-01").unwrap();
    edit_task(&mut store, 1, None, text("Q"), text("fresh"), Some(hours(7)), None, Some(day), None)
        .unwrap();
    assert_eq!(store.tasks[0].template, text("fresh"));
    assert_eq!(store.templates.len(), 1);
    assert_eq!(store.templates[0].name, "fresh");
    assert_eq!(store.templates[0].project, text("Q"));
    assert_eq!(store.templates[0].default_hours, hours(2));
}

#[test]
fn archive_moves_only_completed_tasks() {
    let mut store = Store::new();
    for name in ["a", "b", "c"] {
        cmd_add(&mut store, name.into(), None, None, "2025-12-01".into(), None, None).unwrap();
    }
    cmd_complete(&mut store, 1).unwrap();
    cmd_complete(&mut store, 3).unwrap();
    assert_eq!(cmd_archive(&mut store, Some(2)), 0);
    assert_eq!(cmd_archive(&mut store, Some(3)), 1);
    assert_eq!(store.archive.len(), 1);
    assert_eq!(store.archive[0].name, "c");
    assert_eq!(cmd_archive(&mut store, None), 1);
    assert_eq!(store.archive.len(), 2);
    assert_eq!(store.archive[1].name, "a");
    assert_eq!(store.tasks.len(), 1);
    assert_eq!(store.tasks[0].name, "b");
    assert_eq!(cmd_archive(&mut store, None), 0);
}

#[test]
fn dates_are_read_and_written_as_year_month_day() {
    let day = parse_date("2025-12-01").unwrap();
    assert_eq!(day, Date { days: 739586 });
    assert_eq!(format_date(day), text("2025-12-01"));
    assert_eq!(parse_date("1970-01-01"), Ok(Date { days: 719163 }));
    assert_eq!(parse_date("2025-02-30"), Err(Error::InvalidDate));
    assert_eq!(parse_date(""), Err(Error::InvalidDate));
    assert_eq!(format_date(Date { days: i32::MAX }), None);
    assert_eq!(day.add_days(30), Some(Date { days: 739616 }));
    assert_eq!(Date::from_days(taskust::models::DATE_MAX_DAYS + 1), None);
    assert_eq!(format_date(Date { days: taskust::models::DATE_MAX_DAYS }), text("+262142-12-31"));
    assert_eq!(format_date(Date { days: taskust::models::DATE_MIN_DAYS }), text("-262143-01-01"));
    assert_eq!(format_date(Date { days: taskust::models::DATE_MIN_DAYS - 1 }), None);
}
