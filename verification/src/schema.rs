//! Opening the encrypted database: where the file lives, which key opens it,
//! how a plain file is converted, and the schema migrations.

use vstd::prelude::*;
use vstd::string::{StrSliceExecFns, StringExecFns};
use crate::vault::random_bytes_32;

verus! {

/// The schema version that the migrations lead to.
pub const SCHEMA_VERSION: i64 = 6;

/// The tables of schema version 1, with the default profile rows.
pub const CREATE_TABLES_SQL: &'static str = "
            CREATE TABLE IF NOT EXISTS todos (
                id INTEGER PRIMARY KEY AUTOINCREMENT,
                title TEXT NOT NULL,
                note TEXT DEFAULT '',
                done INTEGER DEFAULT 0,
                due_date TEXT,
                recurrence TEXT DEFAULT 'none',
                recurrence_next TEXT,
                created_at TEXT DEFAULT (datetime('now'))
            );
            CREATE TABLE IF NOT EXISTS events (
                id INTEGER PRIMARY KEY AUTOINCREMENT,
                title TEXT NOT NULL,
                start_at TEXT NOT NULL,
                end_at TEXT,
                recurrence TEXT DEFAULT 'none',
                recurrence_next TEXT,
                todo_id INTEGER REFERENCES todos(id),
                created_at TEXT DEFAULT (datetime('now'))
            );
            CREATE TABLE IF NOT EXISTS vault_items (
                id INTEGER PRIMARY KEY AUTOINCREMENT,
                title TEXT NOT NULL,
                content BLOB NOT NULL,
                created_at TEXT DEFAULT (datetime('now')),
                updated_at TEXT DEFAULT (datetime('now'))
            );
            CREATE TABLE IF NOT EXISTS settings (
                key   TEXT PRIMARY KEY,
                value TEXT NOT NULL
            );
            INSERT OR IGNORE INTO settings (key, value) VALUES ('name', '나');
            INSERT OR IGNORE INTO settings (key, value) VALUES ('bio', '나의 작업 대시보드');
            CREATE TABLE IF NOT EXISTS projects (
                id         INTEGER PRIMARY KEY AUTOINCREMENT,
                name       TEXT    NOT NULL,
                color      TEXT    NOT NULL DEFAULT '#7C3AED',
                category   TEXT    NOT NULL DEFAULT '프로젝트',
                start_date TEXT,
                end_date   TEXT,
                archived   INTEGER NOT NULL DEFAULT 0,
                created_at TEXT    NOT NULL DEFAULT (datetime('now'))
            );
            PRAGMA user_version = 1;
        ";

/// The memo table of schema version 6.
pub const CREATE_MEMOS_SQL: &'static str = "
            CREATE TABLE IF NOT EXISTS memos (
                id INTEGER PRIMARY KEY AUTOINCREMENT,
                title TEXT NOT NULL DEFAULT '',
                body TEXT NOT NULL DEFAULT '',
                created_at TEXT NOT NULL DEFAULT (datetime('now','localtime')),
                updated_at TEXT NOT NULL DEFAULT (datetime('now','localtime'))
            );
            CREATE INDEX IF NOT EXISTS idx_memos_updated_at ON memos(updated_at);
            PRAGMA user_version = 6;
        ";

/// A column that a migration adds unless the table already has it.
pub struct ColumnAddition {
    pub table: &'static str,
    pub column: &'static str,
    pub ddl: &'static str,
}

/// One migration step: add the missing columns, then run `batch`, which
/// sets the schema version to `target`.
pub struct Migration {
    pub target: i64,
    pub columns: Vec<ColumnAddition>,
    pub batch: &'static str,
}

/// The version that the migration from `version` leads to.
pub open spec fn migration_target(version: int) -> int {
    if version < 1 {
        1
    } else {
        version + 1
    }
}

/// The views of the columns that the step to `target` adds.
pub open spec fn migration_columns(target: int) -> Seq<(Seq<char>, Seq<char>, Seq<char>)> {
    if target == 2 {
        seq![
            ("todos"@, "project_id"@, "ALTER TABLE todos ADD COLUMN project_id INTEGER REFERENCES projects(id)"@),
            ("todos"@, "category"@, "ALTER TABLE todos ADD COLUMN category TEXT NOT NULL DEFAULT '작업'"@),
            ("events"@, "category"@, "ALTER TABLE events ADD COLUMN category TEXT NOT NULL DEFAULT '작업'"@),
        ]
    } else if target == 3 {
        seq![("todos"@, "priority"@, "ALTER TABLE todos ADD COLUMN priority INTEGER NOT NULL DEFAULT 0"@)]
    } else if target == 4 {
        seq![("todos"@, "completed_at"@, "ALTER TABLE todos ADD COLUMN completed_at TEXT"@)]
    } else if target == 5 {
        seq![("vault_items"@, "item_type"@, "ALTER TABLE vault_items ADD COLUMN item_type TEXT NOT NULL DEFAULT 'memo'"@)]
    } else {
        seq![]
    }
}

/// The SQL batch of the step to `target`.
pub open spec fn migration_batch(target: int) -> Seq<char> {
    if target == 1 {
        CREATE_TABLES_SQL@
    } else if target == 2 {
        "PRAGMA user_version = 2"@
    } else if target == 3 {
        "PRAGMA user_version = 3"@
    } else if target == 4 {
        "PRAGMA user_version = 4"@
    } else if target == 5 {
        "PRAGMA user_version = 5"@
    } else {
        CREATE_MEMOS_SQL@
    }
}

/// The start of the statement that adds `column` to `table`.
pub open spec fn add_column_head(table: Seq<char>, column: Seq<char>) -> Seq<char> {
    "ALTER TABLE "@ + table + " ADD COLUMN "@ + column + " "@
}

/// Law: every column addition of a migration step alters the table it names
/// and adds the column it names: its statement begins with
/// `ALTER TABLE <table> ADD COLUMN <column> `, followed by the column's type.
pub proof fn lemma_additions_alter_their_column(target: int, i: int)
    requires
        0 <= i < migration_columns(target).len(),
    ensures
        ({
            let c = migration_columns(target)[i];
            let head = add_column_head(c.0, c.1);
            c.2.len() > head.len() && c.2.take(head.len() as int) == head
        }),
{
    reveal_strlit("ALTER TABLE ");
    reveal_strlit(" ADD COLUMN ");
    reveal_strlit(" ");
    reveal_strlit("todos");
    reveal_strlit("events");
    reveal_strlit("vault_items");
    reveal_strlit("project_id");
    reveal_strlit("category");
    reveal_strlit("priority");
    reveal_strlit("completed_at");
    reveal_strlit("item_type");
    reveal_strlit("ALTER TABLE todos ADD COLUMN project_id INTEGER REFERENCES projects(id)");
    reveal_strlit("ALTER TABLE todos ADD COLUMN category TEXT NOT NULL DEFAULT '작업'");
    reveal_strlit("ALTER TABLE events ADD COLUMN category TEXT NOT NULL DEFAULT '작업'");
    reveal_strlit("ALTER TABLE todos ADD COLUMN priority INTEGER NOT NULL DEFAULT 0");
    reveal_strlit("ALTER TABLE todos ADD COLUMN completed_at TEXT");
    reveal_strlit("ALTER TABLE vault_items ADD COLUMN item_type TEXT NOT NULL DEFAULT 'memo'");
    let c = migration_columns(target)[i];
    let head = add_column_head(c.0, c.1);
    assert(c.2.take(head.len() as int) =~= head);
}

/// The views of a migration's columns.
pub open spec fn column_views(cs: Seq<ColumnAddition>) -> Seq<(Seq<char>, Seq<char>, Seq<char>)> {
    cs.map_values(|c: ColumnAddition| (c.table@, c.column@, c.ddl@))
}

fn column_addition(table: &'static str, name: &'static str, ddl: &'static str) -> (res: ColumnAddition)
    ensures
        res.table@ == table@,
        res.column@ == name@,
        res.ddl@ == ddl@,
{
    ColumnAddition { table, column: name, ddl }
}

/// The migration step that a database at schema `version` needs next, or
/// `None` once it is current. Each step leads to the next version (from
/// version 0 or below, to version 1).
pub fn migration_for(version: i64) -> (res: Option<Migration>)
    ensures
        res is None <==> version >= SCHEMA_VERSION,
        res matches Some(m) ==> {
            &&& m.target == migration_target(version as int)
            &&& m.batch@ == migration_batch(m.target as int)
            &&& column_views(m.columns@) == migration_columns(m.target as int)
        },
{
    if version >= SCHEMA_VERSION {
        return None;
    }
    let mut columns: Vec<ColumnAddition> = Vec::new();
    if version < 1 {
        return Some(Migration { target: 1, columns, batch: CREATE_TABLES_SQL });
    }
    if version < 2 {
        columns.push(column_addition("todos", "project_id", "ALTER TABLE todos ADD COLUMN project_id INTEGER REFERENCES projects(id)"));
        columns.push(column_addition("todos", "category", "ALTER TABLE todos ADD COLUMN category TEXT NOT NULL DEFAULT '작업'"));
        columns.push(column_addition("events", "category", "ALTER TABLE events ADD COLUMN category TEXT NOT NULL DEFAULT '작업'"));
        assert(column_views(columns@) == migration_columns(2));
        return Some(Migration { target: 2, columns, batch: "PRAGMA user_version = 2" });
    }
    if version < 3 {
        columns.push(column_addition("todos", "priority", "ALTER TABLE todos ADD COLUMN priority INTEGER NOT NULL DEFAULT 0"));
        assert(column_views(columns@) == migration_columns(3));
        return Some(Migration { target: 3, columns, batch: "PRAGMA user_version = 3" });
    }
    if version < 4 {
        columns.push(column_addition("todos", "completed_at", "ALTER TABLE todos ADD COLUMN completed_at TEXT"));
        assert(column_views(columns@) == migration_columns(4));
        return Some(Migration { target: 4, columns, batch: "PRAGMA user_version = 4" });
    }
    if version < 5 {
        columns.push(column_addition("vault_items", "item_type", "ALTER TABLE vault_items ADD COLUMN item_type TEXT NOT NULL DEFAULT 'memo'"));
        assert(column_views(columns@) == migration_columns(5));
        return Some(Migration { target: 5, columns, batch: "PRAGMA user_version = 5" });
    }
    assert(column_views(columns@) == migration_columns(6));
    Some(Migration { target: 6, columns, batch: CREATE_MEMOS_SQL })
}

/// The number of migration steps from `version` to the current schema.
pub open spec fn steps_to_current(version: int) -> nat
    decreases SCHEMA_VERSION - version,
{
    if version >= SCHEMA_VERSION {
        0
    } else {
        1 + steps_to_current(migration_target(version))
    }
}

/// Law: migrations always finish. Each step raises the version, never past
/// the current one, and from any version at most six steps reach it.
pub proof fn lemma_migrations_finish(version: int)
    ensures
        version < SCHEMA_VERSION ==> version < migration_target(version) <= SCHEMA_VERSION,
        steps_to_current(version) <= SCHEMA_VERSION,
        0 <= version <= SCHEMA_VERSION ==> steps_to_current(version) == SCHEMA_VERSION - version,
    decreases SCHEMA_VERSION - version,
{
    if version < SCHEMA_VERSION {
        let next = migration_target(version);
        lemma_migrations_finish(next);
        assert(steps_to_current(version) == 1 + steps_to_current(next));
        assert(next >= 1);
    }
}

/// The statements that add those of the first `n` columns of a step that are
/// not present yet, in order; `present[i]` tells whether column `i` exists.
pub open spec fn ddl_to_run(cols: Seq<ColumnAddition>, present: Seq<bool>, n: int) -> Seq<Seq<char>>
    decreases n,
{
    if n <= 0 {
        seq![]
    } else {
        let rest = ddl_to_run(cols, present, n - 1);
        if present[n - 1] {
            rest
        } else {
            rest.push(cols[n - 1].ddl@)
        }
    }
}

/// The statements that a migration step runs before its batch: the additions
/// of the columns that are missing, in order. A column that exists is never
/// added again.
pub fn columns_to_add(columns: &Vec<ColumnAddition>, present: &Vec<bool>) -> (res: Vec<&'static str>)
    requires
        present@.len() == columns@.len(),
    ensures
        res@.map_values(|d: &'static str| d@) == ddl_to_run(columns@, present@, columns@.len() as int),
{
    let mut out: Vec<&'static str> = Vec::new();
    let mut i: usize = 0;
    while i < columns.len()
        invariant
            present@.len() == columns@.len(),
            0 <= i <= columns@.len(),
            out@.map_values(|d: &'static str| d@) == ddl_to_run(columns@, present@, i as int),
        decreases columns@.len() - i,
    {
        if !present[i] {
            out.push(columns[i].ddl);
        }
        i = i + 1;
    }
    out
}

/// Law: where every column of a step is present, the step adds none.
pub proof fn lemma_present_columns_untouched(cols: Seq<ColumnAddition>, present: Seq<bool>, n: int)
    requires
        0 <= n <= present.len(),
        forall|i: int| 0 <= i < present.len() ==> present[i],
    ensures
        ddl_to_run(cols, present, n) == Seq::<Seq<char>>::empty(),
    decreases n,
{
    if n > 0 {
        lemma_present_columns_untouched(cols, present, n - 1);
    }
}

/// Law: migrating a database that is current does nothing: no step remains.
pub proof fn lemma_current_schema_untouched(version: int)
    requires
        version >= SCHEMA_VERSION,
    ensures
        steps_to_current(version) == 0,
{
}

/// What a migration run has the application do next.
pub enum MigrationAction {
    /// Read the schema version (`PRAGMA user_version`).
    ReadVersion,
    /// Tell, for each of these columns, whether its table already has it.
    CheckColumns(Vec<ColumnAddition>),
    /// Run these column additions, in order, and then this batch.
    Run(Vec<&'static str>, &'static str),
    /// The schema is current; the run is over.
    Done,
}

/// The outcome of the last action of a migration run.
pub enum MigrationEvent {
    VersionRead(i64),
    ColumnsChecked(Vec<bool>),
    Ran,
}

/// Where a migration run stands.
pub enum MigrationStage {
    AwaitVersion,
    AwaitColumns { step: Migration },
    AwaitRun,
    Finished,
}

/// Running the migrations of a database: read the version; while it is not
/// current, check which columns of the next step exist, add the missing ones
/// and run the step's batch, and read the version again.
pub struct MigrationRun {
    pub stage: MigrationStage,
}

/// The event answers the action that the run waits on.
pub open spec fn migration_answers(m: MigrationRun, e: MigrationEvent) -> bool {
    match m.stage {
        MigrationStage::AwaitVersion => e is VersionRead,
        MigrationStage::AwaitColumns { step } => e matches MigrationEvent::ColumnsChecked(p)
            && p@.len() == step.columns@.len(),
        MigrationStage::AwaitRun => e is Ran,
        MigrationStage::Finished => false,
    }
}

/// The next state and action that the outcome `e` of the last action leads to
/// from `m`.
pub open spec fn migration_steps_to(
    m: MigrationRun,
    e: MigrationEvent,
    r: (MigrationRun, MigrationAction),
) -> bool {
    match (m.stage, e) {
        (MigrationStage::AwaitVersion, MigrationEvent::VersionRead(v)) => if v >= SCHEMA_VERSION {
            r.0.stage is Finished && r.1 is Done
        } else {
            &&& r.0.stage matches MigrationStage::AwaitColumns { step } && {
                &&& step.target == migration_target(v as int)
                &&& step.batch@ == migration_batch(step.target as int)
                &&& column_views(step.columns@) == migration_columns(step.target as int)
                &&& r.1 matches MigrationAction::CheckColumns(cs) && column_views(cs@)
                    == column_views(step.columns@)
            }
        },
        (MigrationStage::AwaitColumns { step }, MigrationEvent::ColumnsChecked(present)) => {
            &&& r.0.stage is AwaitRun
            &&& r.1 matches MigrationAction::Run(ddls, batch) && ddls@.map_values(
                |d: &'static str| d@,
            ) == ddl_to_run(step.columns@, present@, step.columns@.len() as int) && batch@
                == step.batch@
        },
        (MigrationStage::AwaitRun, MigrationEvent::Ran) => r.0.stage is AwaitVersion && r.1 is ReadVersion,
        _ => true,
    }
}

/// A copy of a step's columns.
fn copy_columns(columns: &Vec<ColumnAddition>) -> (res: Vec<ColumnAddition>)
    ensures
        column_views(res@) == column_views(columns@),
{
    let mut out: Vec<ColumnAddition> = Vec::new();
    let mut i: usize = 0;
    while i < columns.len()
        invariant
            0 <= i <= columns@.len(),
            out@.len() == i,
            column_views(out@) == column_views(columns@.take(i as int)),
        decreases columns@.len() - i,
    {
        let c = &columns[i];
        let ghost before = out@;
        out.push(column_addition(c.table, c.column, c.ddl));
        proof {
            let t = columns@.take(i as int + 1);
            assert(t == columns@.take(i as int).push(columns@[i as int]));
            assert forall|j: int| 0 <= j < i implies #[trigger] column_views(out@)[j] == column_views(t)[j] by {
                assert(out@[j] == before[j]);
                assert(column_views(before)[j] == column_views(columns@.take(i as int))[j]);
            }
            assert(column_views(out@) =~= column_views(t));
        }
        i = i + 1;
    }
    proof {
        assert(columns@.take(columns@.len() as int) == columns@);
    }
    out
}

impl MigrationRun {
    /// Starts a run: the version is read first.
    pub fn start() -> (res: (MigrationRun, MigrationAction))
        ensures
            res.0.stage is AwaitVersion,
            res.1 is ReadVersion,
    {
        (MigrationRun { stage: MigrationStage::AwaitVersion }, MigrationAction::ReadVersion)
    }

    /// Takes the outcome of the last action and decides the next one.
    pub fn step(self, e: MigrationEvent) -> (res: (MigrationRun, MigrationAction))
        requires
            migration_answers(self, e),
        ensures
            migration_steps_to(self, e, res),
    {
        match self.stage {
            MigrationStage::AwaitVersion => match e {
                MigrationEvent::VersionRead(v) => match migration_for(v) {
                    None => (MigrationRun { stage: MigrationStage::Finished }, MigrationAction::Done),
                    Some(step) => {
                        let cs = copy_columns(&step.columns);
                        (
                            MigrationRun { stage: MigrationStage::AwaitColumns { step } },
                            MigrationAction::CheckColumns(cs),
                        )
                    },
                },
                _ => (MigrationRun { stage: MigrationStage::Finished }, MigrationAction::Done),
            },
            MigrationStage::AwaitColumns { step } => match e {
                MigrationEvent::ColumnsChecked(present) => {
                    let ddls = columns_to_add(&step.columns, &present);
                    (MigrationRun { stage: MigrationStage::AwaitRun }, MigrationAction::Run(ddls, step.batch))
                },
                _ => (MigrationRun { stage: MigrationStage::Finished }, MigrationAction::Done),
            },
            MigrationStage::AwaitRun => (
                MigrationRun { stage: MigrationStage::AwaitVersion },
                MigrationAction::ReadVersion,
            ),
            MigrationStage::Finished => (MigrationRun { stage: MigrationStage::Finished }, MigrationAction::Done),
        }
    }
}

/// Law: a run ends only on reading a current schema version.
pub proof fn lemma_run_ends_only_when_current(
    m: MigrationRun,
    e: MigrationEvent,
    r: (MigrationRun, MigrationAction),
)
    requires
        migration_answers(m, e),
        migration_steps_to(m, e, r),
        r.1 is Done,
    ensures
        e matches MigrationEvent::VersionRead(v) && v >= SCHEMA_VERSION,
{
}

/// Law: a second run changes nothing. A run ended on reading some version;
/// a second run that reads the same version (the database was not touched
/// since) ends at once, without checking, adding or running anything.
pub proof fn lemma_second_run_changes_nothing(
    m: MigrationRun,
    e: MigrationEvent,
    r: (MigrationRun, MigrationAction),
    again: MigrationRun,
    r2: (MigrationRun, MigrationAction),
)
    requires
        migration_answers(m, e),
        migration_steps_to(m, e, r),
        r.1 is Done,
        again.stage is AwaitVersion,
        migration_steps_to(again, e, r2),
    ensures
        r2.1 is Done,
        r2.0.stage is Finished,
{
}

/// The query that counts the columns of `table` named by the parameter `?`.
pub fn table_has_column_sql(table: &str) -> (res: String)
    ensures
        res@ == "SELECT COUNT(*) FROM pragma_table_info('"@ + table@ + "') WHERE name = ?"@,
{
    String::from_str("SELECT COUNT(*) FROM pragma_table_info('").concat(table).concat(
        "') WHERE name = ?",
    )
}

/// Whether a column count shows the column.
pub fn count_shows_column(count: i64) -> (res: bool)
    ensures
        res == (count > 0),
{
    count > 0
}

/// The database file inside the application's data directory.
pub fn db_file_path(app_dir: &str) -> (res: String)
    ensures
        res@ == app_dir@ + "/shelf.db"@,
{
    String::from_str(app_dir).concat("/shelf.db")
}

/// Where a plain database is moved while it is converted.
pub fn backup_file_path(path: &str) -> (res: String)
    ensures
        res@ == path@ + ".plain_backup"@,
{
    String::from_str(path).concat(".plain_backup")
}

/// Lowercase hexadecimal digit of a value below 16.
pub open spec fn hex_digit(n: int) -> char {
    if n < 10 {
        (48 + n) as char
    } else {
        (87 + n) as char
    }
}

/// Lowercase hexadecimal text of bytes, two digits per byte, high half first.
pub open spec fn lower_hex(bytes: Seq<u8>) -> Seq<char>
    decreases bytes.len(),
{
    if bytes.len() == 0 {
        seq![]
    } else {
        lower_hex(bytes.drop_last()) + seq![
            hex_digit((bytes.last() / 16) as int),
            hex_digit((bytes.last() % 16) as int),
        ]
    }
}

/// Encodes bytes with `hex::encode`.
///
/// Trusted: the hex source writes each byte as two digits from
/// `"0123456789abcdef"`, high half first.
#[verifier::external_body]
fn hex_encode(bytes: &[u8]) -> (res: String)
    ensures
        res@ == lower_hex(bytes@),
{
    hex::encode(bytes)
}

/// The statement that sets the database key, given in hex.
pub fn pragma_key_sql(key: &[u8]) -> (res: String)
    ensures
        res@ == "PRAGMA key = \"x'"@ + lower_hex(key@) + "'\";"@,
{
    let hex_key = hex_encode(key);
    String::from_str("PRAGMA key = \"x'").concat(hex_key.as_str()).concat("'\";")
}

/// `s` with every single quote doubled, as inside an SQL string literal.
pub open spec fn sql_escaped(s: Seq<char>) -> Seq<char>
    decreases s.len(),
{
    if s.len() == 0 {
        seq![]
    } else {
        sql_escaped(s.drop_last()) + if s.last() == '\'' {
            seq!['\'', '\'']
        } else {
            seq![s.last()]
        }
    }
}

/// A stretch without quotes is kept as it is.
proof fn lemma_escape_plain(prefix: Seq<char>, plain: Seq<char>)
    requires
        forall|i: int| 0 <= i < plain.len() ==> plain[i] != '\'',
    ensures
        sql_escaped(prefix + plain) == sql_escaped(prefix) + plain,
    decreases plain.len(),
{
    if plain.len() > 0 {
        let shorter = plain.drop_last();
        lemma_escape_plain(prefix, shorter);
        assert((prefix + plain).drop_last() == prefix + shorter);
        assert((prefix + plain).last() == plain.last());
        assert(sql_escaped(prefix) + shorter + seq![plain.last()] == sql_escaped(prefix) + plain);
    } else {
        assert(prefix + plain == prefix);
    }
}

/// Doubles every single quote of `s`, for use inside an SQL string literal.
pub fn escape_sql_quotes(s: &str) -> (res: String)
    ensures
        res@ == sql_escaped(s@),
{
    let n = s.unicode_len();
    let mut out = String::new();
    let mut start: usize = 0;
    let mut i: usize = 0;
    while i < n
        invariant
            n == s@.len(),
            0 <= start <= i <= n,
            out@ == sql_escaped(s@.subrange(0, start as int)),
            forall|j: int| start <= j < i ==> s@[j] != '\'',
        decreases n - i,
    {
        let c = s.get_char(i);
        if c == '\'' {
            let plain = s.substring_char(start, i);
            proof {
                lemma_escape_plain(s@.subrange(0, start as int), plain@);
                assert(s@.subrange(0, start as int) + plain@ == s@.subrange(0, i as int));
                assert(s@.subrange(0, i as int + 1).drop_last() == s@.subrange(0, i as int));
            }
            out.append(plain);
            out.append("''");
            proof {
                reveal_strlit("''");
                assert("''"@ == seq!['\'', '\'']);
            }
            start = i + 1;
        }
        i = i + 1;
    }
    let rest = s.substring_char(start, n);
    proof {
        lemma_escape_plain(s@.subrange(0, start as int), rest@);
        assert(s@.subrange(0, start as int) + rest@ == s@);
    }
    out.append(rest);
    out
}

/// The batch that copies a plain database into an encrypted file at `path`
/// under `key` (given in hex), with SQLCipher's export.
pub fn attach_encrypted_sql(path: &str, key: &[u8]) -> (res: String)
    ensures
        res@ == "ATTACH DATABASE '"@ + sql_escaped(path@) + "' AS encrypted KEY \"x'"@ + lower_hex(key@)
            + "'\"; SELECT sqlcipher_export('encrypted'); DETACH DATABASE encrypted;"@,
{
    let hex_key = hex_encode(key);
    let escaped = escape_sql_quotes(path);
    String::from_str("ATTACH DATABASE '").concat(escaped.as_str()).concat(
        "' AS encrypted KEY \"x'",
    ).concat(hex_key.as_str()).concat("'\"; SELECT sqlcipher_export('encrypted'); DETACH DATABASE encrypted;")
}

/// Which key opens the database file.
pub enum DbKeyChoice {
    /// The key that the keychain holds.
    Existing(Vec<u8>),
    /// No key was stored: a fresh random 32-byte key, to be stored first.
    Fresh(Vec<u8>),
}

/// Picks the database key from what loading it from the keychain gave: the
/// loaded key, or on the first run (nothing stored) a fresh random one.
pub fn choose_db_key(loaded: Result<Vec<u8>, String>) -> (res: DbKeyChoice)
    ensures
        loaded matches Ok(k) ==> (res matches DbKeyChoice::Existing(r) && r@ == k@),
        loaded is Err ==> (res matches DbKeyChoice::Fresh(r) && r@.len() == 32),
{
    match loaded {
        Ok(k) => DbKeyChoice::Existing(k),
        Err(_) => {
            let fresh = random_bytes_32();
            let mut key: Vec<u8> = Vec::new();
            let mut i: usize = 0;
            while i < 32
                invariant
                    0 <= i <= 32,
                    key@.len() == i,
                decreases 32 - i,
            {
                key.push(fresh[i]);
                i = i + 1;
            }
            DbKeyChoice::Fresh(key)
        },
    }
}

} // verus!
