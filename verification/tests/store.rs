use rusqlite::Connection;
use shelf::sql::{
    PROJECTS_ACTIVE_SQL, PROJECT_ARCHIVE_SQL, PROJECT_DELETE_SQL, PROJECT_INSERT_SQL,
    PROJECT_UPDATE_SQL, SETTINGS_ALL_SQL, SETTINGS_UPSERT_SQL,
};
use shelf::store::{
    flag_is_set, memo_summaries_sql, normalize_search, preview_sql_expr, require_changed,
    settings_from_rows, Project, Settings, StoreError,
};

fn projects_setup() -> Connection {
    let conn = Connection::open_in_memory().unwrap();
    conn.execute_batch(
        "
        CREATE TABLE projects (
            id         INTEGER PRIMARY KEY AUTOINCREMENT,
            name       TEXT    NOT NULL,
            color      TEXT    NOT NULL DEFAULT '#7C3AED',
            category   TEXT    NOT NULL DEFAULT '프로젝트',
            start_date TEXT,
            end_date   TEXT,
            archived   INTEGER NOT NULL DEFAULT 0,
            created_at TEXT    NOT NULL DEFAULT (datetime('now'))
        );
    ",
    )
    .unwrap();
    conn
}

fn create_with(conn: &Connection, name: &str, color: &str, category: &str, start: Option<&str>, end: Option<&str>) -> i64 {
    conn.execute(PROJECT_INSERT_SQL, (name, color, category, start, end,)).unwrap();
    conn.last_insert_rowid()
}

fn get_all_with(conn: &Connection) -> Vec<Project> {
    let mut stmt = conn.prepare(PROJECTS_ACTIVE_SQL).unwrap();
    let rows = stmt
        .query_map([], |row| {
            Ok(Project::from_row(
                row.get(0)?,
                row.get(1)?,
                row.get(2)?,
                row.get(3)?,
                row.get(4)?,
                row.get(5)?,
                row.get(6)?,
                row.get(7)?,
            ))
        })
        .unwrap();
    rows.map(|r| r.unwrap()).collect()
}

#[test]
fn create_and_get() {
    let conn = projects_setup();
    let id = create_with(&conn, "테스트", "#7C3AED", "프로젝트", None, None);
    assert!(id > 0);
    let list = get_all_with(&conn);
    assert_eq!(list.len(), 1);
    assert_eq!(list[0].name, "테스트");
    assert!(!list[0].archived);
}

#[test]
fn update_project() {
    let conn = projects_setup();
    let id = create_with(&conn, "원래", "#7C3AED", "프로젝트", None, None);
    conn.execute(
        PROJECT_UPDATE_SQL,
        ("새 이름", "#10B981", "작업", Some("2026-05-01"), Some("2026-05-31"), id,),
    )
    .unwrap();
    let list = get_all_with(&conn);
    assert_eq!(list[0].name, "새 이름");
    assert_eq!(list[0].start_date, Some("2026-05-01".to_string()));
}

#[test]
fn archive_hides_from_list() {
    let conn = projects_setup();
    let id = create_with(&conn, "대상", "#7C3AED", "프로젝트", None, None);
    conn.execute(PROJECT_ARCHIVE_SQL, (id,)).unwrap();
    let list = get_all_with(&conn);
    assert_eq!(list.len(), 0);
}

#[test]
fn delete_project() {
    let conn = projects_setup();
    let id = create_with(&conn, "삭제", "#7C3AED", "프로젝트", None, None);
    conn.execute(PROJECT_DELETE_SQL, (id,)).unwrap();
    assert_eq!(get_all_with(&conn).len(), 0);
}

fn settings_setup() -> Connection {
    let conn = Connection::open_in_memory().unwrap();
    conn.execute_batch(
        "
        CREATE TABLE settings (key TEXT PRIMARY KEY, value TEXT NOT NULL);
        INSERT INTO settings (key, value) VALUES ('name', '나');
        INSERT INTO settings (key, value) VALUES ('bio', '나의 작업 대시보드');
    ",
    )
    .unwrap();
    conn
}

fn get_with(conn: &Connection) -> Settings {
    let mut stmt = conn.prepare(SETTINGS_ALL_SQL).unwrap();
    let rows = stmt
        .query_map([], |row| Ok((row.get::<_, String>(0)?, row.get::<_, String>(1)?)))
        .unwrap();
    settings_from_rows(rows.map(|r| r.unwrap()).collect())
}

fn set_with(conn: &Connection, key: &str, value: &str) {
    conn.execute(SETTINGS_UPSERT_SQL, (key, value,)).unwrap();
}

#[test]
fn get_returns_defaults() {
    let conn = settings_setup();
    let s = get_with(&conn);
    assert_eq!(s.name, "나");
    assert_eq!(s.bio, "나의 작업 대시보드");
}

#[test]
fn set_updates_value() {
    let conn = settings_setup();
    set_with(&conn, "name", "Jack");
    let s = get_with(&conn);
    assert_eq!(s.name, "Jack");
}

#[test]
fn set_upserts_on_duplicate() {
    let conn = settings_setup();
    set_with(&conn, "name", "First");
    set_with(&conn, "name", "Second");
    let s = get_with(&conn);
    assert_eq!(s.name, "Second");
}

#[test]
fn settings_defaults_and_last_row_wins() {
    let s = settings_from_rows(vec![]);
    assert_eq!(s.name, "나");
    assert_eq!(s.bio, "나의 작업 대시보드");
    let s = settings_from_rows(vec![
        ("name".to_string(), "A".to_string()),
        ("theme".to_string(), "dark".to_string()),
        ("name".to_string(), "B".to_string()),
        ("bio".to_string(), "hello".to_string()),
    ]);
    assert_eq!(s.name, "B");
    assert_eq!(s.bio, "hello");
}

#[test]
fn flags_and_row_counts() {
    assert!(!flag_is_set(0));
    assert!(flag_is_set(1));
    assert!(flag_is_set(-3));
    assert_eq!(require_changed(0), Err(StoreError::NoRows));
    assert_eq!(require_changed(2), Ok(()));
}

#[test]
fn search_text_is_trimmed() {
    assert_eq!(normalize_search(None), None);
    assert_eq!(normalize_search(Some("   ")), None);
    assert_eq!(normalize_search(Some("")), None);
    assert_eq!(normalize_search(Some("  메모 검색 \n")).as_deref(), Some("메모 검색"));
    assert_eq!(normalize_search(Some("\u{3000}메모\u{a0}")).as_deref(), Some("메모"));
    assert_eq!(normalize_search(Some(" 메모 ")), normalize_search(Some("메모")));
}

#[test]
fn memo_queries() {
    assert_eq!(
        preview_sql_expr(),
        "substr(replace(replace(ifnull(body,''), char(10), ' '), char(13), ' '), 1, 120)"
    );
    let all = memo_summaries_sql(false);
    assert_eq!(
        all,
        "SELECT id, title, substr(replace(replace(ifnull(body,''), char(10), ' '), char(13), ' '), 1, 120) AS preview, updated_at FROM memos ORDER BY updated_at DESC"
    );
    let conn = Connection::open_in_memory().unwrap();
    conn.execute_batch(
        "CREATE TABLE memos (id INTEGER PRIMARY KEY AUTOINCREMENT, title TEXT NOT NULL DEFAULT '', body TEXT NOT NULL DEFAULT '', created_at TEXT NOT NULL DEFAULT '', updated_at TEXT NOT NULL DEFAULT '');
         INSERT INTO memos (title, body, updated_at) VALUES ('shopping', 'milk\neggs', '2026-05-01');
         INSERT INTO memos (title, body, updated_at) VALUES ('work', 'report', '2026-05-02');",
    )
    .unwrap();
    let filtered = memo_summaries_sql(true);
    let mut stmt = conn.prepare(&filtered).unwrap();
    let rows: Vec<(i64, String, String)> = stmt
        .query_map(("egg",), |r| Ok((r.get(0)?, r.get(1)?, r.get(2)?)))
        .unwrap()
        .map(|r| r.unwrap())
        .collect();
    assert_eq!(rows, vec![(1, "shopping".to_string(), "milk eggs".to_string())]);
    let mut stmt = conn.prepare(&all).unwrap();
    let ids: Vec<i64> = stmt.query_map([], |r| r.get(0)).unwrap().map(|r| r.unwrap()).collect();
    assert_eq!(ids, vec![2, 1]);
}
