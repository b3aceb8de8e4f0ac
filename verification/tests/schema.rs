use rusqlite::Connection;
use shelf::schema::{
    attach_encrypted_sql, backup_file_path, choose_db_key, columns_to_add, count_shows_column,
    db_file_path,
    escape_sql_quotes, migration_for, pragma_key_sql, table_has_column_sql, DbKeyChoice,
    MigrationAction, MigrationEvent, MigrationRun, CREATE_TABLES_SQL, SCHEMA_VERSION,
};
use shelf::sql::USER_VERSION_SQL;

fn run_migrations(conn: &Connection) -> usize {
    let mut steps = 0;
    let (mut run, mut action) = MigrationRun::start();
    loop {
        let event = match action {
            MigrationAction::ReadVersion => {
                MigrationEvent::VersionRead(conn.query_row(USER_VERSION_SQL, [], |r| r.get(0)).unwrap())
            }
            MigrationAction::CheckColumns(columns) => {
                let present: Vec<bool> = columns
                    .iter()
                    .map(|c| {
                        let n: i64 = conn
                            .query_row(&table_has_column_sql(c.table), [c.column], |r| r.get(0))
                            .unwrap();
                        count_shows_column(n)
                    })
                    .collect();
                MigrationEvent::ColumnsChecked(present)
            }
            MigrationAction::Run(ddls, batch) => {
                for ddl in ddls {
                    conn.execute(ddl, []).unwrap();
                }
                conn.execute_batch(batch).unwrap();
                steps += 1;
                MigrationEvent::Ran
            }
            MigrationAction::Done => return steps,
        };
        let (next, next_action) = run.step(event);
        run = next;
        action = next_action;
    }
}

#[test]
fn migration_steps_by_version() {
    assert!(migration_for(6).is_none());
    assert!(migration_for(7).is_none());
    let m = migration_for(0).unwrap();
    assert_eq!(m.target, 1);
    assert_eq!(m.batch, CREATE_TABLES_SQL);
    assert!(m.columns.is_empty());
    assert_eq!(migration_for(-4).unwrap().target, 1);
    let m = migration_for(1).unwrap();
    assert_eq!(m.target, 2);
    assert_eq!(m.batch, "PRAGMA user_version = 2");
    let names: Vec<(&str, &str)> = m.columns.iter().map(|c| (c.table, c.column)).collect();
    assert_eq!(names, vec![("todos", "project_id"), ("todos", "category"), ("events", "category")]);
    assert_eq!(migration_for(2).unwrap().columns[0].column, "priority");
    assert_eq!(migration_for(3).unwrap().columns[0].column, "completed_at");
    assert_eq!(migration_for(4).unwrap().columns[0].table, "vault_items");
    assert_eq!(migration_for(5).unwrap().target, SCHEMA_VERSION);
}

#[test]
fn migrations_bring_a_new_database_to_the_current_schema() {
    let conn = Connection::open_in_memory().unwrap();
    assert_eq!(run_migrations(&conn), 6);
    let version: i64 = conn.query_row(USER_VERSION_SQL, [], |r| r.get(0)).unwrap();
    assert_eq!(version, 6);
    assert_eq!(run_migrations(&conn), 0);
    let name: String = conn
        .query_row("SELECT value FROM settings WHERE key = 'name'", [], |r| r.get(0))
        .unwrap();
    assert_eq!(name, "나");
}

#[test]
fn migrations_skip_existing_columns() {
    let conn = Connection::open_in_memory().unwrap();
    conn.execute_batch(CREATE_TABLES_SQL).unwrap();
    conn.execute("ALTER TABLE todos ADD COLUMN category TEXT NOT NULL DEFAULT '작업'", []).unwrap();
    assert_eq!(run_migrations(&conn), 5);
}

#[test]
fn hex_and_pragma() {
    assert_eq!(pragma_key_sql(&[0x00, 0x9f, 0xab, 0x10]), "PRAGMA key = \"x'009fab10'\";");
    assert_eq!(pragma_key_sql(&[0x0a, 0xff]), "PRAGMA key = \"x'0aff'\";");
    assert_eq!(pragma_key_sql(&[]), "PRAGMA key = \"x''\";");
}

#[test]
fn quotes_are_doubled() {
    assert_eq!(escape_sql_quotes("/Users/jack's/shelf.db"), "/Users/jack''s/shelf.db");
    assert_eq!(escape_sql_quotes("''"), "''''");
    assert_eq!(escape_sql_quotes("plain"), "plain");
    assert_eq!(escape_sql_quotes(""), "");
    assert_eq!(escape_sql_quotes("데이터'"), "데이터''");
    assert_eq!(
        attach_encrypted_sql("/a'b.db", &[0x00]),
        "ATTACH DATABASE '/a''b.db' AS encrypted KEY \"x'00'\"; SELECT sqlcipher_export('encrypted'); DETACH DATABASE encrypted;"
    );
}

#[test]
fn file_paths() {
    assert_eq!(db_file_path("/data"), "/data/shelf.db");
    assert_eq!(backup_file_path("/data/shelf.db"), "/data/shelf.db.plain_backup");
    assert_eq!(table_has_column_sql("todos"), "SELECT COUNT(*) FROM pragma_table_info('todos') WHERE name = ?");
    assert!(count_shows_column(1));
    assert!(!count_shows_column(0));
}

#[test]
fn database_key_choice() {
    match choose_db_key(Ok(vec![1, 2, 3])) {
        DbKeyChoice::Existing(k) => assert_eq!(k, vec![1, 2, 3]),
        DbKeyChoice::Fresh(_) => panic!("expected the stored key"),
    }
    match choose_db_key(Err("missing".to_string())) {
        DbKeyChoice::Fresh(k) => assert_eq!(k.len(), 32),
        DbKeyChoice::Existing(_) => panic!("expected a fresh key"),
    }
}

#[test]
fn only_missing_columns_are_added() {
    let m = migration_for(1).unwrap();
    assert_eq!(
        columns_to_add(&m.columns, &vec![true, false, true]),
        vec!["ALTER TABLE todos ADD COLUMN category TEXT NOT NULL DEFAULT '작업'"]
    );
    assert!(columns_to_add(&m.columns, &vec![true, true, true]).is_empty());
    assert_eq!(columns_to_add(&m.columns, &vec![false, false, false]).len(), 3);
}
