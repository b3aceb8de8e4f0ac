//! Records of the local store and the rules around it: the profile defaults,
//! memo search, the schema migrations, and the SQL text the store runs.
//!
//! The SQLite connection itself lives in the application; it runs the text
//! built here and hands the rows it reads to these functions.

use vstd::prelude::*;
use vstd::string::StringExecFns;
use crate::text::str_eq;

verus! {

/// A project.
pub struct Project {
    pub id: i64,
    pub name: String,
    pub color: String,
    pub category: String,
    pub start_date: Option<String>,
    pub end_date: Option<String>,
    pub archived: bool,
    pub created_at: String,
}

/// The user's profile.
pub struct Settings {
    pub name: String,
    pub bio: String,
}

/// A memo.
pub struct Memo {
    pub id: i64,
    pub title: String,
    pub body: String,
    pub created_at: String,
    pub updated_at: String,
}

/// A memo in a list or a search result: its title and the start of its body.
pub struct MemoSummary {
    pub id: i64,
    pub title: String,
    pub preview: String,
    pub updated_at: String,
}

/// A vault item as listed; its content is only handed out decrypted.
pub struct VaultItem {
    pub id: i64,
    pub title: String,
    pub item_type: String,
    pub created_at: String,
    pub updated_at: String,
}

impl Project {
    /// A project from a row of the project list; the archived column is an
    /// integer flag.
    pub fn from_row(
        id: i64,
        name: String,
        color: String,
        category: String,
        start_date: Option<String>,
        end_date: Option<String>,
        archived: i64,
        created_at: String,
    ) -> (res: Project)
        ensures
            res == (Project { id, name, color, category, start_date, end_date, archived: archived != 0, created_at }),
    {
        Project { id, name, color, category, start_date, end_date, archived: flag_is_set(archived), created_at }
    }
}

/// A failed store operation that the store itself does not report.
#[derive(Debug, Clone, Copy, PartialEq, Eq, Structural)]
pub enum StoreError {
    /// An update or delete matched no row.
    NoRows,
}

/// Integer flags of the store: zero is false, anything else true.
pub fn flag_is_set(value: i64) -> (res: bool)
    ensures
        res == (value != 0),
{
    value != 0
}

/// An update or delete that changed no row is an error.
pub fn require_changed(changed: usize) -> (res: Result<(), StoreError>)
    ensures
        res is Ok <==> changed > 0,
        res matches Err(e) ==> e == StoreError::NoRows,
{
    if changed == 0 {
        Err(StoreError::NoRows)
    } else {
        Ok(())
    }
}

/// Default profile name.
pub open spec fn default_name() -> Seq<char> {
    "나"@
}

/// Default profile line.
pub open spec fn default_bio() -> Seq<char> {
    "나의 작업 대시보드"@
}

/// The value of `key` among key/value rows read in order: the last row with
/// that key wins; `default` where no row has it.
pub open spec fn setting_value(rows: Seq<(Seq<char>, Seq<char>)>, key: Seq<char>, default: Seq<char>) -> Seq<char>
    decreases rows.len(),
{
    if rows.len() == 0 {
        default
    } else if rows.last().0 == key {
        rows.last().1
    } else {
        setting_value(rows.drop_last(), key, default)
    }
}

/// The views of key/value rows.
pub open spec fn row_views(rows: Seq<(String, String)>) -> Seq<(Seq<char>, Seq<char>)> {
    rows.map_values(|r: (String, String)| (r.0@, r.1@))
}

/// Builds the profile from the rows of the settings table: `name` and `bio`
/// come from their rows, with the defaults where a row is missing; other keys
/// are ignored.
pub fn settings_from_rows(rows: Vec<(String, String)>) -> (res: Settings)
    ensures
        res.name@ == setting_value(row_views(rows@), "name"@, default_name()),
        res.bio@ == setting_value(row_views(rows@), "bio"@, default_bio()),
{
    let ghost all = rows@;
    let mut name = String::from_str("나");
    let mut bio = String::from_str("나의 작업 대시보드");
    for row in it: rows
        invariant
            all == it.seq(),
            name@ == setting_value(row_views(all.take(it.index() as int)), "name"@, default_name()),
            bio@ == setting_value(row_views(all.take(it.index() as int)), "bio"@, default_bio()),
    {
        let ghost k = it.index();
        let (key, value) = row;
        proof {
            assert(all.take(k + 1).drop_last() == all.take(k as int));
            assert(row_views(all.take(k + 1)).drop_last() == row_views(all.take(k as int)));
            assert(row_views(all.take(k + 1)).last() == (key@, value@));
            reveal_strlit("name");
            reveal_strlit("bio");
            assert("name"@.len() == 4);
            assert("bio"@.len() == 3);
            assert("name"@ != "bio"@);
        }
        if str_eq(key.as_str(), "name") {
            name = value;
        } else if str_eq(key.as_str(), "bio") {
            bio = value;
        }
    }
    proof {
        assert(all.take(all.len() as int) == all);
    }
    Settings { name, bio }
}

/// Whether `c` has Unicode's `White_Space` property, by which `str::trim`
/// and `char::is_whitespace` go.
pub open spec fn is_white_space(c: char) -> bool {
    let n = c as int;
    ||| 0x9 <= n <= 0xD
    ||| n == 0x20
    ||| n == 0x85
    ||| n == 0xA0
    ||| n == 0x1680
    ||| 0x2000 <= n <= 0x200A
    ||| n == 0x2028
    ||| n == 0x2029
    ||| n == 0x202F
    ||| n == 0x205F
    ||| n == 0x3000
}

/// `s` without its leading whitespace.
pub open spec fn trim_start_ws(s: Seq<char>) -> Seq<char>
    decreases s.len(),
{
    if s.len() > 0 && is_white_space(s[0]) {
        trim_start_ws(s.drop_first())
    } else {
        s
    }
}

/// `s` without its trailing whitespace.
pub open spec fn trim_end_ws(s: Seq<char>) -> Seq<char>
    decreases s.len(),
{
    if s.len() > 0 && is_white_space(s.last()) {
        trim_end_ws(s.drop_last())
    } else {
        s
    }
}

/// The text that `str::trim` leaves of `s`: no leading or trailing
/// whitespace.
pub open spec fn trimmed(s: Seq<char>) -> Seq<char> {
    trim_end_ws(trim_start_ws(s))
}

/// Removes leading and trailing whitespace with `str::trim`.
///
/// Trusted: std documents `trim` as removing leading and trailing whitespace
/// as Unicode's `White_Space` property defines it, which `is_white_space`
/// lists.
#[verifier::external_body]
fn trim_text(s: &str) -> (res: &str)
    ensures
        res@ == trimmed(s@),
{
    s.trim()
}

proof fn lemma_trim_start_first(s: Seq<char>)
    ensures
        trim_start_ws(s).len() > 0 ==> !is_white_space(trim_start_ws(s)[0]),
    decreases s.len(),
{
    if s.len() > 0 && is_white_space(s[0]) {
        lemma_trim_start_first(s.drop_first());
    }
}

proof fn lemma_trim_end_prefix(s: Seq<char>)
    ensures
        trim_end_ws(s).len() <= s.len(),
        forall|i: int| 0 <= i < trim_end_ws(s).len() ==> trim_end_ws(s)[i] == s[i],
        trim_end_ws(s).len() > 0 ==> !is_white_space(trim_end_ws(s).last()),
    decreases s.len(),
{
    if s.len() > 0 && is_white_space(s.last()) {
        let d = s.drop_last();
        lemma_trim_end_prefix(d);
        assert forall|i: int| 0 <= i < trim_end_ws(s).len() implies trim_end_ws(s)[i] == s[i] by {
            assert(trim_end_ws(s) == trim_end_ws(d));
            assert(d[i] == s[i]);
        }
    }
}

/// Law: trimming is idempotent; trimmed text trims to itself.
pub proof fn lemma_trimmed_idempotent(s: Seq<char>)
    ensures
        trimmed(trimmed(s)) == trimmed(s),
{
    let t = trim_start_ws(s);
    let u = trim_end_ws(t);
    lemma_trim_start_first(s);
    lemma_trim_end_prefix(t);
    if u.len() > 0 {
        assert(u[0] == t[0]);
        assert(trim_start_ws(u) == u);
    } else {
        assert(trim_start_ws(u) == u);
    }
}

/// The memo search text that applies: the trimmed query, unless it is empty.
pub open spec fn search_needle(query: Option<Seq<char>>) -> Option<Seq<char>> {
    match query {
        Some(q) => if trimmed(q).len() > 0 {
            Some(trimmed(q))
        } else {
            None
        },
        None => None,
    }
}

/// Law: a query searches for its trimmed text whenever that text is not
/// empty, however short, and only a blank query means no search.
pub proof fn lemma_search_uses_trimmed_query(q: Seq<char>)
    ensures
        trimmed(q).len() > 0 ==> search_needle(Some(q)) == Some(trimmed(q)),
        search_needle(Some(q)) is None <==> trimmed(q).len() == 0,
        search_needle(None) is None,
{
}

/// Law: searching for a query and for its trimmed form is the same search;
/// a query that trims to nothing is no search at all.
pub proof fn lemma_search_ignores_surrounding_space(q: Seq<char>)
    ensures
        search_needle(Some(q)) == search_needle(Some(trimmed(q))),
        trimmed(q).len() == 0 ==> search_needle(Some(q)) is None,
{
    lemma_trimmed_idempotent(q);
}

/// The memo search text that applies to a query, if any.
pub fn normalize_search(query: Option<&str>) -> (res: Option<String>)
    ensures
        match res {
            Some(s) => search_needle(match query { Some(q) => Some(q@), None => None }) == Some(s@),
            None => search_needle(match query { Some(q) => Some(q@), None => None }) is None,
        },
{
    match query {
        Some(q) => {
            let t = trim_text(q);
            if t.is_empty() {
                None
            } else {
                Some(String::from_str(t))
            }
        },
        None => None,
    }
}

/// The SQL expression of a memo preview: the first 120 characters of the
/// body with line breaks turned into spaces.
pub fn preview_sql_expr() -> (res: &'static str)
    ensures
        res@ == "substr(replace(replace(ifnull(body,''), char(10), ' '), char(13), ' '), 1, 120)"@,
{
    "substr(replace(replace(ifnull(body,''), char(10), ' '), char(13), ' '), 1, 120)"
}

/// The query that lists memo summaries, newest change first; with `filtered`
/// it keeps memos whose title or body contains the parameter `?1`.
pub fn memo_summaries_sql(filtered: bool) -> (res: String)
    ensures
        res@ == "SELECT id, title, "@
            + "substr(replace(replace(ifnull(body,''), char(10), ' '), char(13), ' '), 1, 120)"@
            + " AS preview, updated_at FROM memos "@ + if filtered {
            "WHERE title LIKE '%' || ?1 || '%' OR body LIKE '%' || ?1 || '%' "@
        } else {
            ""@
        } + "ORDER BY updated_at DESC"@,
{
    let head = String::from_str("SELECT id, title, ").concat(preview_sql_expr()).concat(
        " AS preview, updated_at FROM memos ",
    );
    let filter = if filtered {
        "WHERE title LIKE '%' || ?1 || '%' OR body LIKE '%' || ?1 || '%' "
    } else {
        ""
    };
    head.concat(filter).concat("ORDER BY updated_at DESC")
}

} // verus!
