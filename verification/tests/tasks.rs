use chrono::NaiveDate;
use shelf::datetime::DateTime;
use shelf::tasks::{refresh_event, refresh_events, refresh_todo, refresh_todos, Event, Todo};

fn at(y: i32, m: u32, d: u32, h: u32) -> DateTime {
    let n = NaiveDate::from_ymd_opt(y, m, d).unwrap().and_hms_opt(h, 0, 0).unwrap();
    DateTime::from_timestamp(n.and_utc().timestamp(), 0).unwrap()
}

fn todo(id: i64, done: bool, recurrence: &str, due: Option<&str>, next: Option<&str>) -> Todo {
    Todo::from_row(
        id,
        "title".to_string(),
        "note".to_string(),
        if done { 1 } else { 0 },
        due.map(|s| s.to_string()),
        recurrence.to_string(),
        next.map(|s| s.to_string()),
        None,
        "작업".to_string(),
        0,
        "2026-05-01 00:00:00".to_string(),
    )
}

fn event(id: i64, recurrence: &str, start: &str, next: Option<&str>) -> Event {
    Event {
        id,
        title: "meeting".to_string(),
        start_at: start.to_string(),
        end_at: None,
        recurrence: recurrence.to_string(),
        recurrence_next: next.map(|s| s.to_string()),
        todo_id: None,
        category: "작업".to_string(),
        created_at: "2026-05-01 00:00:00".to_string(),
    }
}

#[test]
fn past_daily_task_moves_to_tomorrow() {
    let now = at(2026, 5, 10, 12);
    let (t, update) = refresh_todo(todo(1, false, "daily", Some("2026-05-01 09:00:00"), None), now);
    assert_eq!(update.as_deref(), Some("2026-05-11 09:00:00"));
    assert_eq!(t.recurrence_next.as_deref(), Some("2026-05-11 09:00:00"));
    assert_eq!(t.due_date.as_deref(), Some("2026-05-01 09:00:00"));
}

#[test]
fn pending_date_wins_over_due_date() {
    let now = at(2026, 5, 10, 12);
    let (t, update) = refresh_todo(
        todo(1, false, "weekly", Some("2026-01-01 09:00:00"), Some("2026-05-08 09:00:00")),
        now,
    );
    assert_eq!(update.as_deref(), Some("2026-05-15 09:00:00"));
    assert_eq!(t.recurrence_next.as_deref(), Some("2026-05-15 09:00:00"));
}

#[test]
fn unreadable_pending_date_is_left_alone() {
    // The stored next date is used even when it does not parse; no fallback to the due date.
    let now = at(2026, 5, 10, 12);
    let (t, update) = refresh_todo(todo(1, false, "daily", Some("2026-05-01 09:00:00"), Some("soon")), now);
    assert!(update.is_none());
    assert_eq!(t.recurrence_next.as_deref(), Some("soon"));
}

#[test]
fn done_and_plain_tasks_are_untouched() {
    let now = at(2026, 5, 10, 12);
    let (t, u) = refresh_todo(todo(1, true, "daily", Some("2026-05-01 09:00:00"), None), now);
    assert!(u.is_none());
    assert!(t.recurrence_next.is_none());
    let (_, u) = refresh_todo(todo(2, false, "none", Some("2026-05-01 09:00:00"), None), now);
    assert!(u.is_none());
    let (_, u) = refresh_todo(todo(3, false, "yearly", Some("2026-05-01 09:00:00"), None), now);
    assert!(u.is_none());
    let (_, u) = refresh_todo(todo(4, false, "daily", None, None), now);
    assert!(u.is_none());
}

#[test]
fn future_task_is_untouched() {
    let now = at(2026, 5, 10, 12);
    let (t, u) = refresh_todo(todo(1, false, "daily", Some("2026-05-20 09:00:00"), None), now);
    assert!(u.is_none());
    assert!(t.recurrence_next.is_none());
}

#[test]
fn event_falls_back_to_start() {
    let now = at(2026, 5, 10, 12);
    let (e, u) = refresh_event(event(7, "monthly", "2026-04-10 09:00:00", None), now);
    assert_eq!(u.as_deref(), Some("2026-06-10 09:00:00"));
    assert_eq!(e.recurrence_next.as_deref(), Some("2026-06-10 09:00:00"));
    let (_, u) = refresh_event(event(8, "none", "2026-04-10 09:00:00", None), now);
    assert!(u.is_none());
}

#[test]
fn lists_report_updates_in_order() {
    let now = at(2026, 5, 10, 12);
    let todos = vec![
        todo(1, false, "daily", Some("2026-05-01 09:00:00"), None),
        todo(2, true, "daily", Some("2026-05-01 09:00:00"), None),
        todo(3, false, "weekly", Some("2026-05-01 09:00:00"), None),
    ];
    let (list, updates) = refresh_todos(todos, now);
    assert_eq!(list.len(), 3);
    assert_eq!(updates.len(), 2);
    assert_eq!(updates[0].id, 1);
    assert_eq!(updates[0].next, "2026-05-11 09:00:00");
    assert_eq!(updates[1].id, 3);
    assert_eq!(updates[1].next, "2026-05-15 09:00:00");
    assert!(list[1].recurrence_next.is_none());

    let events = vec![event(5, "daily", "2026-05-09 10:00:00", None), event(6, "none", "2026-05-09 10:00:00", None)];
    let (list, updates) = refresh_events(events, now);
    assert_eq!(list.len(), 2);
    assert_eq!(updates.len(), 1);
    assert_eq!(updates[0].id, 5);
    assert_eq!(updates[0].next, "2026-05-11 10:00:00");
}

#[test]
fn listing_twice_changes_nothing() {
    let now = at(2026, 5, 10, 12);
    let list = vec![
        todo(1, false, "daily", Some("2026-05-01 09:00:00"), None),
        todo(2, false, "monthly", Some("2026-01-31 08:00:00"), None),
        todo(3, true, "weekly", Some("2026-01-01 09:00:00"), None),
    ];
    let (first, updates) = refresh_todos(list, now);
    assert_eq!(updates.len(), 2);
    let nexts: Vec<Option<String>> = first.iter().map(|t| t.recurrence_next.clone()).collect();
    let (second, updates) = refresh_todos(first, now);
    assert!(updates.is_empty());
    let again: Vec<Option<String>> = second.iter().map(|t| t.recurrence_next.clone()).collect();
    assert_eq!(nexts, again);
    let (events, updates) = refresh_events(vec![event(4, "weekly", "2026-04-01 10:00:00", None)], now);
    assert_eq!(updates.len(), 1);
    let (_, updates) = refresh_events(events, now);
    assert!(updates.is_empty());
}
