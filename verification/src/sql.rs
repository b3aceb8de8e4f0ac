//! The statements that the application runs against the store.

use vstd::prelude::*;

verus! {

/// Probe that fails on a database that the key does not open.
pub const SCHEMA_PROBE_SQL: &'static str = "SELECT count(*) FROM sqlite_master";
/// Reads the schema version.
pub const USER_VERSION_SQL: &'static str = "PRAGMA user_version";

/// Lists projects that are not archived, newest first.
pub const PROJECTS_ACTIVE_SQL: &'static str = "SELECT id, name, color, category, start_date, end_date, archived, created_at FROM projects WHERE archived = 0 ORDER BY created_at DESC";
/// Adds a project: name, color, category, start and end date.
pub const PROJECT_INSERT_SQL: &'static str = "INSERT INTO projects (name, color, category, start_date, end_date) VALUES (?1, ?2, ?3, ?4, ?5)";
/// Changes a project: name, color, category, start and end date; then the id.
pub const PROJECT_UPDATE_SQL: &'static str = "UPDATE projects SET name=?1, color=?2, category=?3, start_date=?4, end_date=?5 WHERE id=?6";
/// Deletes a project.
pub const PROJECT_DELETE_SQL: &'static str = "DELETE FROM projects WHERE id = ?1";
/// Archives a project.
pub const PROJECT_ARCHIVE_SQL: &'static str = "UPDATE projects SET archived = 1 WHERE id = ?1";

/// Reads every profile row.
pub const SETTINGS_ALL_SQL: &'static str = "SELECT key, value FROM settings";
/// Sets a profile value, replacing an earlier one.
pub const SETTINGS_UPSERT_SQL: &'static str = "INSERT INTO settings (key, value) VALUES (?1, ?2) ON CONFLICT(key) DO UPDATE SET value = excluded.value";
/// Reads one profile value.
pub const SETTINGS_VALUE_SQL: &'static str = "SELECT value FROM settings WHERE key = ?1";

/// Lists tasks, newest first.
pub const TODOS_ALL_SQL: &'static str = "SELECT id, title, note, done, due_date, recurrence, recurrence_next, project_id, category, priority, created_at FROM todos ORDER BY created_at DESC";
/// Adds a task: title, note, due date, rule, category, priority, project.
pub const TODO_INSERT_SQL: &'static str = "INSERT INTO todos (title, note, due_date, recurrence, category, priority, project_id) VALUES (?1, ?2, ?3, ?4, ?5, ?6, ?7)";
/// Marks a task done or not.
pub const TODO_DONE_SQL: &'static str = "UPDATE todos SET done = ?1 WHERE id = ?2";
/// Deletes a task.
pub const TODO_DELETE_SQL: &'static str = "DELETE FROM todos WHERE id = ?1";
/// Changes a task: title, note, due date, category, priority; then the id.
pub const TODO_UPDATE_SQL: &'static str = "UPDATE todos SET title=?1, note=?2, due_date=?3, category=?4, priority=?5 WHERE id=?6";
/// Sets the project of a task.
pub const TODO_PROJECT_SQL: &'static str = "UPDATE todos SET project_id = ?1 WHERE id = ?2";
/// Sets the pending date of a repeating task.
pub const TODO_RECURRENCE_NEXT_SQL: &'static str = "UPDATE todos SET recurrence_next = ?1 WHERE id = ?2";

/// Lists events by start.
pub const EVENTS_ALL_SQL: &'static str = "SELECT id, title, start_at, end_at, recurrence, recurrence_next, todo_id, category, created_at FROM events ORDER BY start_at";
/// Adds an event: title, start, end, rule, category.
pub const EVENT_INSERT_SQL: &'static str = "INSERT INTO events (title, start_at, end_at, recurrence, category) VALUES (?1, ?2, ?3, ?4, ?5)";
/// Deletes an event.
pub const EVENT_DELETE_SQL: &'static str = "DELETE FROM events WHERE id = ?1";
/// Sets the pending date of a repeating event.
pub const EVENT_RECURRENCE_NEXT_SQL: &'static str = "UPDATE events SET recurrence_next = ?1 WHERE id = ?2";

/// Lists vault items, most recently changed first.
pub const VAULT_ALL_SQL: &'static str = "SELECT id, title, item_type, created_at, updated_at FROM vault_items ORDER BY updated_at DESC";
/// Adds a vault item: title, type, encrypted content.
pub const VAULT_INSERT_SQL: &'static str = "INSERT INTO vault_items (title, item_type, content) VALUES (?1, ?2, ?3)";
/// Reads the encrypted content of a vault item.
pub const VAULT_CONTENT_SQL: &'static str = "SELECT content FROM vault_items WHERE id = ?1";
/// Changes the title and content of a vault item.
pub const VAULT_UPDATE_SQL: &'static str = "UPDATE vault_items SET title = ?1, content = ?2, updated_at = datetime('now') WHERE id = ?3";
/// Replaces only the encrypted content of a vault item.
pub const VAULT_UPDATE_CONTENT_SQL: &'static str = "UPDATE vault_items SET content = ?1 WHERE id = ?2";
/// Deletes a vault item.
pub const VAULT_DELETE_SQL: &'static str = "DELETE FROM vault_items WHERE id = ?1";

/// Counts memos.
pub const MEMOS_COUNT_SQL: &'static str = "SELECT COUNT(*) FROM memos";
/// Reads one memo.
pub const MEMO_BY_ID_SQL: &'static str = "SELECT id, title, body, created_at, updated_at FROM memos WHERE id = ?1";
/// Adds a memo.
pub const MEMO_INSERT_SQL: &'static str = "INSERT INTO memos (title, body) VALUES (?1, ?2)";
/// Changes a memo and stamps the change in local time.
pub const MEMO_UPDATE_SQL: &'static str = "UPDATE memos SET title = ?1, body = ?2, updated_at = datetime('now','localtime') WHERE id = ?3";
/// Deletes a memo.
pub const MEMO_DELETE_SQL: &'static str = "DELETE FROM memos WHERE id = ?1";

} // verus!
