use vstd::prelude::*;
use vstd::string::{StrSliceExecFns, StringExecFns};
use crate::auth::{
    argon2_check, has_special_run, regex_outcome, strong_password, username_pattern,
    validate_password_strength, validate_username, PasswordHandler,
};
use crate::dates::{date_le, lemma_text_order_is_date_order, text_le, CalendarDate};
use crate::errors::{is_bad_request, AppError};

verus! {

#[verifier::external_type_specification]
#[verifier::external_body]
pub struct ExConnection(rusqlite::Connection);

#[verifier::external_type_specification]
#[verifier::external_body]
pub struct ExRow<'stmt>(rusqlite::Row<'stmt>);

/// Which creation dates an entry listing keeps.
pub enum DateFilter {
    NoFilter,
    Single(CalendarDate),
    Range(CalendarDate, CalendarDate),
}

impl DateFilter {
    pub open spec fn wf(self) -> bool {
        match self {
            DateFilter::NoFilter => true,
            DateFilter::Single(d) => d.wf(),
            DateFilter::Range(a, b) => a.wf() && b.wf(),
        }
    }
}

/// Credentials as a client sends them.
#[derive(Debug)]
pub struct NewUser {
    pub username: String,
    pub password: String,
}

#[derive(Debug)]
pub struct User {
    pub id: i32,
    pub username: String,
    pub created_at: String,
}

/// The editable part of an entry.
#[derive(Debug)]
pub struct NewEntry {
    pub content: String,
    pub recordings_map: String,
}

#[derive(Debug)]
pub struct Entry {
    pub id: i32,
    pub user_id: i32,
    pub content: String,
    pub recordings_map: String,
    pub created_at: String,
}

/// A value bound to a statement parameter.
pub enum SqlValue {
    Int(i32),
    Text(String),
}

/// The view of a parameter list: integers as themselves, texts as their
/// characters.
pub enum SqlParam {
    Int(i32),
    Text(Seq<char>),
}

pub open spec fn param_view(v: SqlValue) -> SqlParam {
    match v {
        SqlValue::Int(i) => SqlParam::Int(i),
        SqlValue::Text(s) => SqlParam::Text(s@),
    }
}

pub open spec fn params_view(v: Seq<SqlValue>) -> Seq<SqlParam> {
    v.map_values(|x: SqlValue| param_view(x))
}

/// Relies on `rusqlite::Connection::execute`: runs one statement with its
/// parameters bound in order and reports the rows it changed, or the engine's
/// error. Nothing is promised of the outcome, which depends on what is
/// stored.
#[verifier::external_body]
fn sql_execute(conn: &rusqlite::Connection, sql: &str, params: &Vec<SqlValue>) -> (r: Result<
    usize,
    rusqlite::Error,
>) {
    let mut values: Vec<rusqlite::types::Value> = Vec::new();
    for p in params.iter() {
        match p {
            SqlValue::Int(i) => values.push(rusqlite::types::Value::Integer(*i as i64)),
            SqlValue::Text(s) => values.push(rusqlite::types::Value::Text(s.clone())),
        }
    }
    conn.execute(sql, rusqlite::params_from_iter(values.iter()))
}

/// Relies on `rusqlite::Row::get`: reads the five entry columns of a row.
#[verifier::external_body]
fn map_entries(row: &rusqlite::Row) -> (r: Result<Entry, rusqlite::Error>) {
    Ok(Entry {
        id: row.get(0)?,
        user_id: row.get(1)?,
        content: row.get(2)?,
        recordings_map: row.get(3)?,
        created_at: row.get(4)?,
    })
}

/// Relies on `rusqlite::Row::get`: reads the id, name and hash columns of a
/// user row.
#[verifier::external_body]
fn map_user(row: &rusqlite::Row) -> (r: Result<(i32, String, String), rusqlite::Error>) {
    Ok((row.get(0)?, row.get(1)?, row.get(2)?))
}

/// Relies on `rusqlite::Connection::prepare` and `Statement::query_map`:
/// runs a query with its parameters bound in order and reads each row with
/// `map_entries`. Nothing is promised of the rows, which depend on what is
/// stored.
#[verifier::external_body]
fn sql_query_entries(conn: &rusqlite::Connection, sql: &str, params: &Vec<SqlValue>) -> (r: Result<
    Vec<Entry>,
    rusqlite::Error,
>) {
    let mut values: Vec<rusqlite::types::Value> = Vec::new();
    for p in params.iter() {
        match p {
            SqlValue::Int(i) => values.push(rusqlite::types::Value::Integer(*i as i64)),
            SqlValue::Text(s) => values.push(rusqlite::types::Value::Text(s.clone())),
        }
    }
    let mut stmt = conn.prepare(sql)?;
    let rows = stmt.query_map(rusqlite::params_from_iter(values.iter()), map_entries)?;
    rows.collect()
}

/// Relies on `rusqlite::Connection::query_row`: runs a query with its
/// parameters bound in order and reads its first row with `map_user`, `None`
/// when the engine reports no row. Nothing is promised of the row, which
/// depends on what is stored.
#[verifier::external_body]
fn sql_query_user(conn: &rusqlite::Connection, sql: &str, params: &Vec<SqlValue>) -> (r: Result<
    Option<(i32, String, String)>,
    rusqlite::Error,
>) {
    let mut values: Vec<rusqlite::types::Value> = Vec::new();
    for p in params.iter() {
        match p {
            SqlValue::Int(i) => values.push(rusqlite::types::Value::Integer(*i as i64)),
            SqlValue::Text(s) => values.push(rusqlite::types::Value::Text(s.clone())),
        }
    }
    match conn.query_row(sql, rusqlite::params_from_iter(values.iter()), map_user) {
        Ok(t) => Ok(Some(t)),
        Err(rusqlite::Error::QueryReturnedNoRows) => Ok(None),
        Err(e) => Err(e),
    }
}

/// Relies on the variants of `rusqlite::Error`: the engine's message of a
/// `SqliteFailure` that carries one.
#[verifier::external_body]
fn failure_message(e: &rusqlite::Error) -> (r: Option<String>) {
    match e {
        rusqlite::Error::SqliteFailure(_, Some(msg)) => Some(msg.clone()),
        _ => None,
    }
}

/// Relies on `chrono::Local::now` and its `Display`: the local time as text.
/// Nothing is promised of the text, which depends on the clock.
#[verifier::external_body]
fn local_now_text() -> (r: String) {
    chrono::Local::now().to_string()
}

/// `needle` occurs in `hay` as a run of neighbouring characters.
pub open spec fn occurs_in(hay: Seq<char>, needle: Seq<char>) -> bool {
    exists|i: int| 0 <= i && i + needle.len() <= hay.len() && #[trigger] hay.subrange(i, i + needle.len()) == needle
}

/// Whether `needle` occurs in `hay`.
pub fn contains_text(hay: &str, needle: &str) -> (r: bool)
    ensures
        r == occurs_in(hay@, needle@),
{
    let n = hay.unicode_len();
    let m = needle.unicode_len();
    if m > n {
        proof {
            assert forall|i: int| 0 <= i && i + m <= n implies #[trigger] hay@.subrange(i, i + m) != needle@ by {}
        }
        return false;
    }
    let mut i: usize = 0;
    while i <= n - m
        invariant
            n == hay@.len(),
            m == needle@.len(),
            m <= n,
            i <= n - m + 1,
            forall|k: int| 0 <= k < i ==> #[trigger] hay@.subrange(k, k + m) != needle@,
        decreases n + 1 - i,
    {
        let mut j: usize = 0;
        let mut same = true;
        while j < m
            invariant
                n == hay@.len(),
                m == needle@.len(),
                i + m <= n,
                j <= m,
                same == (forall|t: int| 0 <= t < j ==> hay@[i + t] == needle@[t]),
            decreases m - j,
        {
            if hay.get_char(i + j) != needle.get_char(j) {
                same = false;
            }
            j += 1;
        }
        if same {
            assert(hay@.subrange(i as int, i + m) =~= needle@);
            return true;
        }
        proof {
            assert(exists|t: int| 0 <= t < m && hay@[i + t] != needle@[t]);
            let t = choose|t: int| 0 <= t < m && hay@[i + t] != needle@[t];
            assert(hay@.subrange(i as int, i + m)[t] != needle@[t]);
        }
        i += 1;
    }
    false
}

/// The text views of a list of strings.
pub open spec fn texts(v: Seq<String>) -> Seq<Seq<char>> {
    v.map_values(|x: String| x@)
}

/// The condition a date filter appends to an entry query.
pub open spec fn filter_clause(f: DateFilter) -> Seq<char> {
    match f {
        DateFilter::NoFilter => Seq::empty(),
        DateFilter::Single(_) => " AND DATE(created_at) = ?2"@,
        DateFilter::Range(_, _) => " AND DATE(created_at) BETWEEN ?2 AND ?3"@,
    }
}

/// The dates, as text, bound to the condition of `filter_clause`.
pub open spec fn filter_dates(f: DateFilter) -> Seq<Seq<char>> {
    match f {
        DateFilter::NoFilter => Seq::empty(),
        DateFilter::Single(d) => seq![d.text()],
        DateFilter::Range(a, b) => seq![a.text(), b.text()],
    }
}

/// Whether the listing query of `user_id` under `f` keeps a row with owner
/// `row_owner` whose timestamp falls on the day written `row_day`: the owner
/// must match, then the day is compared as text with the dates that
/// `filter_dates` binds.
pub open spec fn listing_keeps(f: DateFilter, user_id: i32, row_owner: i32, row_day: Seq<char>) -> bool {
    &&& row_owner == user_id
    &&& match f {
        DateFilter::NoFilter => true,
        DateFilter::Single(_) => row_day == filter_dates(f)[0],
        DateFilter::Range(_, _) => text_le(filter_dates(f)[0], row_day) && text_le(
            row_day,
            filter_dates(f)[1],
        ),
    }
}

/// A listing under a range keeps exactly the rows of its own user whose day
/// lies in the range, both ends included.
pub proof fn lemma_range_listing(
    user_id: i32,
    start: CalendarDate,
    end: CalendarDate,
    row_owner: i32,
    row_day: CalendarDate,
)
    requires
        start.wf(),
        end.wf(),
        row_day.wf(),
    ensures
        listing_keeps(DateFilter::Range(start, end), user_id, row_owner, row_day.text()) == (
        row_owner == user_id && date_le(start, row_day) && date_le(row_day, end)),
{
    lemma_text_order_is_date_order(start, row_day);
    lemma_text_order_is_date_order(row_day, end);
}

/// A listing under a single day keeps exactly the rows of its own user on
/// that day.
pub proof fn lemma_single_day_listing(user_id: i32, d: CalendarDate, row_owner: i32, row_day: CalendarDate)
    requires
        d.wf(),
        row_day.wf(),
    ensures
        listing_keeps(DateFilter::Single(d), user_id, row_owner, row_day.text()) == (row_owner
            == user_id && row_day == d),
{
    lemma_text_order_is_date_order(d, row_day);
    lemma_text_order_is_date_order(row_day, d);
}

/// The query condition and its parameters for a date filter.
pub fn build_date_filter(date_filter: DateFilter) -> (r: (String, Vec<String>))
    requires
        date_filter.wf(),
    ensures
        r.0@ == filter_clause(date_filter),
        texts(r.1@) == filter_dates(date_filter),
{
    match date_filter {
        DateFilter::NoFilter => {
            let v: Vec<String> = Vec::new();
            assert(texts(v@) =~= Seq::<Seq<char>>::empty());
            (String::new(), v)
        },
        DateFilter::Single(date) => {
            let query_part = String::from_str(" AND DATE(created_at) = ?2");
            let mut params: Vec<String> = Vec::new();
            params.push(date.to_text());
            assert(texts(params@) =~= seq![date.text()]);
            (query_part, params)
        },
        DateFilter::Range(start, end) => {
            let query_part = String::from_str(" AND DATE(created_at) BETWEEN ?2 AND ?3");
            let mut params: Vec<String> = Vec::new();
            params.push(start.to_text());
            params.push(end.to_text());
            assert(texts(params@) =~= seq![start.text(), end.text()]);
            (query_part, params)
        },
    }
}

/// A statement with its parameters, bound in order.
pub struct Statement {
    pub sql: String,
    pub params: Vec<SqlValue>,
}

pub open spec fn insert_entry_sql() -> Seq<char> {
    "INSERT INTO entries (user_id, content, recordings_map, created_at) VALUES (?1, ?2, ?3, ?4)"@
}

pub open spec fn update_entry_sql() -> Seq<char> {
    "UPDATE entries SET content = ?1, recordings_map = ?2 WHERE id = ?3 AND user_id = ?4"@
}

pub open spec fn delete_entry_sql() -> Seq<char> {
    "DELETE FROM entries WHERE id = ?1 AND user_id = ?2"@
}

pub open spec fn insert_user_sql() -> Seq<char> {
    "INSERT INTO users (username, password_hash, created_at) VALUES (?1, ?2, ?3)"@
}

pub open spec fn list_entries_sql() -> Seq<char> {
    "SELECT id, user_id, content, recordings_map, created_at FROM entries WHERE user_id = ?1"@
}

/// The parameters of an update of entry `entry_id` owned by `user_id`.
pub open spec fn update_params(user_id: i32, entry_id: i32, e: NewEntry) -> Seq<SqlParam> {
    seq![
        SqlParam::Text(e.content@),
        SqlParam::Text(e.recordings_map@),
        SqlParam::Int(entry_id),
        SqlParam::Int(user_id),
    ]
}

/// The parameters of a delete of entry `entry_id` owned by `user_id`.
pub open spec fn delete_params(user_id: i32, entry_id: i32) -> Seq<SqlParam> {
    seq![SqlParam::Int(entry_id), SqlParam::Int(user_id)]
}

/// Whether a row with id `row_id` and owner `row_owner` is reached by an
/// update or delete whose condition is `id = ? AND user_id = ?`, with those
/// two parameters last.
pub open spec fn reaches_row(params: Seq<SqlParam>, row_id: i32, row_owner: i32) -> bool {
    &&& params.len() >= 2
    &&& params[params.len() - 2] == SqlParam::Int(row_id)
    &&& params[params.len() - 1] == SqlParam::Int(row_owner)
}

/// An update or delete issued for `user_id` never reaches a row that another
/// user owns, whatever its id: such a row is left as it was.
pub proof fn lemma_foreign_rows_unreached(
    user_id: i32,
    entry_id: i32,
    new_entry: NewEntry,
    row_id: i32,
    row_owner: i32,
)
    requires
        row_owner != user_id,
    ensures
        !reaches_row(update_params(user_id, entry_id, new_entry), row_id, row_owner),
        !reaches_row(delete_params(user_id, entry_id), row_id, row_owner),
{
}

/// The statement that stores a new entry of `user_id`.
pub fn insert_entry_statement(user_id: i32, new_entry: &NewEntry, created_at: String) -> (r:
    Statement)
    ensures
        r.sql@ == insert_entry_sql(),
        params_view(r.params@) == seq![
            SqlParam::Int(user_id),
            SqlParam::Text(new_entry.content@),
            SqlParam::Text(new_entry.recordings_map@),
            SqlParam::Text(created_at@),
        ],
{
    let ghost c = created_at@;
    let params = vec![
        SqlValue::Int(user_id),
        SqlValue::Text(new_entry.content.clone()),
        SqlValue::Text(new_entry.recordings_map.clone()),
        SqlValue::Text(created_at),
    ];
    let r = Statement {
        sql: String::from_str(
            "INSERT INTO entries (user_id, content, recordings_map, created_at) VALUES (?1, ?2, ?3, ?4)",
        ),
        params,
    };
    assert(params_view(r.params@) =~= seq![
        SqlParam::Int(user_id),
        SqlParam::Text(new_entry.content@),
        SqlParam::Text(new_entry.recordings_map@),
        SqlParam::Text(c),
    ]);
    r
}

/// The statement that rewrites entry `entry_id`, only where `user_id` owns it.
pub fn update_entry_statement(user_id: i32, entry_id: i32, new_entry: &NewEntry) -> (r: Statement)
    ensures
        r.sql@ == update_entry_sql(),
        params_view(r.params@) == update_params(user_id, entry_id, *new_entry),
{
    let params = vec![
        SqlValue::Text(new_entry.content.clone()),
        SqlValue::Text(new_entry.recordings_map.clone()),
        SqlValue::Int(entry_id),
        SqlValue::Int(user_id),
    ];
    let r = Statement {
        sql: String::from_str(
            "UPDATE entries SET content = ?1, recordings_map = ?2 WHERE id = ?3 AND user_id = ?4",
        ),
        params,
    };
    assert(params_view(r.params@) =~= update_params(user_id, entry_id, *new_entry));
    r
}

/// The statement that removes entry `entry_id`, only where `user_id` owns it.
pub fn delete_entry_statement(user_id: i32, entry_id: i32) -> (r: Statement)
    ensures
        r.sql@ == delete_entry_sql(),
        params_view(r.params@) == delete_params(user_id, entry_id),
{
    let params = vec![SqlValue::Int(entry_id), SqlValue::Int(user_id)];
    let r = Statement {
        sql: String::from_str("DELETE FROM entries WHERE id = ?1 AND user_id = ?2"),
        params,
    };
    assert(params_view(r.params@) =~= delete_params(user_id, entry_id));
    r
}

/// The statement that stores a new user.
pub fn insert_user_statement(username: &str, password_hash: String, created_at: String) -> (r:
    Statement)
    ensures
        r.sql@ == insert_user_sql(),
        params_view(r.params@) == seq![
            SqlParam::Text(username@),
            SqlParam::Text(password_hash@),
            SqlParam::Text(created_at@),
        ],
{
    let ghost h = password_hash@;
    let ghost c = created_at@;
    let params = vec![
        SqlValue::Text(String::from_str(username)),
        SqlValue::Text(password_hash),
        SqlValue::Text(created_at),
    ];
    let r = Statement {
        sql: String::from_str(
            "INSERT INTO users (username, password_hash, created_at) VALUES (?1, ?2, ?3)",
        ),
        params,
    };
    assert(params_view(r.params@) =~= seq![
        SqlParam::Text(username@),
        SqlParam::Text(h),
        SqlParam::Text(c),
    ]);
    r
}

pub open spec fn find_user_sql() -> Seq<char> {
    "SELECT id, username, password_hash FROM users WHERE username = ?1"@
}

/// The query that looks a user up by name.
pub fn find_user_statement(username: &str) -> (r: Statement)
    ensures
        r.sql@ == find_user_sql(),
        params_view(r.params@) == seq![SqlParam::Text(username@)],
{
    let params = vec![SqlValue::Text(String::from_str(username))];
    let r = Statement {
        sql: String::from_str("SELECT id, username, password_hash FROM users WHERE username = ?1"),
        params,
    };
    assert(params_view(r.params@) =~= seq![SqlParam::Text(username@)]);
    r
}

/// The query that lists the entries of `user_id` under a date filter: the
/// owner condition always, the filter's condition after it.
pub fn list_entries_statement(user_id: i32, date_filter: DateFilter) -> (r: Statement)
    requires
        date_filter.wf(),
    ensures
        r.sql@ == list_entries_sql() + filter_clause(date_filter),
        params_view(r.params@) == seq![SqlParam::Int(user_id)] + filter_dates(date_filter).map_values(
            |t: Seq<char>| SqlParam::Text(t),
        ),
{
    let mut sql = String::from_str(
        "SELECT id, user_id, content, recordings_map, created_at FROM entries WHERE user_id = ?1",
    );
    let (date_query_part, date_params) = build_date_filter(date_filter);
    sql.append(date_query_part.as_str());
    let mut params: Vec<SqlValue> = vec![SqlValue::Int(user_id)];
    let ghost dates = filter_dates(date_filter);
    let mut i: usize = 0;
    while i < date_params.len()
        invariant
            i <= date_params.len(),
            texts(date_params@) == dates,
            params_view(params@) =~= seq![SqlParam::Int(user_id)] + dates.take(i as int).map_values(
                |t: Seq<char>| SqlParam::Text(t),
            ),
        decreases date_params.len() - i,
    {
        let ghost before = params@;
        let t = date_params[i].clone();
        params.push(SqlValue::Text(t));
        proof {
            let f = |t: Seq<char>| SqlParam::Text(t);
            assert(dates[i as int] == date_params@[i as int]@);
            assert(params_view(params@) =~= params_view(before).push(SqlParam::Text(dates[i as int])));
            assert(dates.take(i as int + 1) =~= dates.take(i as int).push(dates[i as int]));
            assert(dates.take(i as int + 1).map_values(f) =~= dates.take(i as int).map_values(f).push(
                SqlParam::Text(dates[i as int]),
            ));
        }
        i += 1;
    }
    assert(dates.take(i as int) =~= dates);
    Statement { sql, params }
}

fn run(conn: &rusqlite::Connection, stmt: &Statement) -> (r: Result<usize, rusqlite::Error>) {
    sql_execute(conn, stmt.sql.as_str(), &stmt.params)
}

/// Creates the two tables when they are missing.
pub fn init_db(conn: &rusqlite::Connection) -> (r: Result<(), rusqlite::Error>) {
    let none: Vec<SqlValue> = Vec::new();
    let users = "CREATE TABLE IF NOT EXISTS users (
            id INTEGER PRIMARY KEY,
            username TEXT NOT NULL UNIQUE,
            password_hash TEXT NOT NULL,
            created_at TEXT NOT NULL
        )";
    let entries = "CREATE TABLE IF NOT EXISTS entries (
            id INTEGER PRIMARY KEY,
            user_id INTEGER NOT NULL,
            content TEXT NOT NULL,
            recordings_map TEXT DEFAULT '[]',
            created_at TEXT NOT NULL,
            FOREIGN KEY(user_id) REFERENCES users(id)
        )";
    match sql_execute(conn, users, &none) {
        Ok(_) => {},
        Err(e) => return Err(e),
    }
    match sql_execute(conn, entries, &none) {
        Ok(_) => {},
        Err(e) => return Err(e),
    }
    Ok(())
}

/// Stores a new entry of `user_id`, stamped with the local time.
pub fn add_user_entry(conn: &rusqlite::Connection, user_id: i32, new_entry: &NewEntry) -> (r: Result<
    (),
    rusqlite::Error,
>) {
    let stmt = insert_entry_statement(user_id, new_entry, local_now_text());
    match run(conn, &stmt) {
        Ok(_) => Ok(()),
        Err(e) => Err(e),
    }
}

/// Rewrites entry `entry_id` where `user_id` owns it; where no such row
/// exists nothing changes and the call still succeeds.
pub fn edit_user_entry(
    conn: &rusqlite::Connection,
    user_id: i32,
    entry_id: i32,
    new_entry: &NewEntry,
) -> (r: Result<(), rusqlite::Error>) {
    let stmt = update_entry_statement(user_id, entry_id, new_entry);
    match run(conn, &stmt) {
        Ok(_) => Ok(()),
        Err(e) => Err(e),
    }
}

/// Removes entry `entry_id` where `user_id` owns it; where no such row
/// exists nothing changes and the call still succeeds.
pub fn delete_user_entry(conn: &rusqlite::Connection, user_id: i32, entry_id: i32) -> (r: Result<
    (),
    rusqlite::Error,
>) {
    let stmt = delete_entry_statement(user_id, entry_id);
    match run(conn, &stmt) {
        Ok(_) => Ok(()),
        Err(e) => Err(e),
    }
}

/// The first failure of a batch delete: the position of the id whose delete
/// failed, and the engine's error.
#[derive(Debug)]
pub struct BatchDeleteError {
    pub failed_at: usize,
    pub error: rusqlite::Error,
}

/// Deletes the entries of `user_id` one id at a time, in order, with no
/// rollback: at the first failure the ids before it stay deleted, the ids
/// after it are not tried, and the failure is returned with its position.
pub fn delete_user_entries(conn: &rusqlite::Connection, user_id: i32, entry_ids: &Vec<i32>) -> (r:
    Result<(), BatchDeleteError>)
    ensures
        r matches Err(e) ==> e.failed_at < entry_ids.len(),
        entry_ids.len() == 0 ==> r is Ok,
{
    if entry_ids.len() == 0 {
        return Ok(());
    }
    let mut i: usize = 0;
    loop
        invariant
            i < entry_ids.len(),
        decreases entry_ids.len() - i,
    {
        let outcome = delete_user_entry(conn, user_id, entry_ids[i]);
        match batch_next(entry_ids.len(), i, outcome.is_ok()) {
            Some(next) => i = next,
            None => {
                return match outcome {
                    Ok(()) => Ok(()),
                    Err(error) => Err(BatchDeleteError { failed_at: i, error }),
                };
            },
        }
    }
}

/// The step of a batch delete: after the delete at position `i` of `len`
/// ids, the position to try next, or `None` to stop. The batch goes on only
/// while deletes succeed and ids remain, so it stops at the first failure.
pub fn batch_next(len: usize, i: usize, deleted: bool) -> (r: Option<usize>)
    requires
        i < len,
    ensures
        r == if deleted && i + 1 < len {
            Some((i + 1) as usize)
        } else {
            None::<usize>
        },
{
    if deleted && i + 1 < len {
        Some(i + 1)
    } else {
        None
    }
}

/// Lists the entries of `user_id` that the date filter keeps, in the order the
/// store gives them. The query itself is scoped to the owner; rows of any
/// other owner are dropped all the same, so none can ever be returned.
pub fn get_user_entries(conn: &rusqlite::Connection, user_id: i32, date_filter: DateFilter) -> (r:
    Result<Vec<Entry>, AppError>)
    requires
        date_filter.wf(),
    ensures
        r matches Ok(v) ==> forall|k: int| 0 <= k < v.len() ==> (#[trigger] v[k]).user_id == user_id,
        r matches Err(e) ==> e is DatabaseError,
{
    proof {
        broadcast use vstd::seq_lib::group_filter_ensures;
    }
    let stmt = list_entries_statement(user_id, date_filter);
    let rows = match sql_query_entries(conn, stmt.sql.as_str(), &stmt.params) {
        Ok(rows) => rows,
        Err(e) => return Err(AppError::DatabaseError(e)),
    };
    Ok(keep_owned(rows, user_id))
}

/// Entries are owned by `user_id`.
pub open spec fn owned_by(user_id: i32) -> spec_fn(Entry) -> bool {
    |e: Entry| e.user_id == user_id
}

/// The rows of `user_id` among `rows`, in their order.
pub fn keep_owned(rows: Vec<Entry>, user_id: i32) -> (r: Vec<Entry>)
    ensures
        r@ == rows@.filter(owned_by(user_id)),
{
    let ghost all = rows@;
    let mut rows = rows;
    let mut kept: Vec<Entry> = Vec::new();
    proof {
        assert(kept@ =~= Seq::<Entry>::empty());
    }
    while rows.len() > 0
        invariant
            kept@ + rows@.filter(owned_by(user_id)) == all.filter(owned_by(user_id)),
        decreases rows.len(),
    {
        let ghost before = rows@;
        let e = rows.remove(0);
        proof {
            assert(before =~= seq![e] + rows@);
            before.drop_first().lemma_filter_prepend(e, owned_by(user_id));
            assert(rows@ =~= before.drop_first());
        }
        if e.user_id == user_id {
            kept.push(e);
        }
        proof {
            if owned_by(user_id)(e) {
                assert(kept@ + rows@.filter(owned_by(user_id)) =~= kept@.drop_last() + (seq![e]
                    + rows@.filter(owned_by(user_id))));
            } else {
                assert((Seq::<Entry>::empty() + rows@.filter(owned_by(user_id))) =~= rows@.filter(
                    owned_by(user_id),
                ));
            }
        }
    }
    assert(rows@.filter(owned_by(user_id)) =~= Seq::<Entry>::empty()) by {
        reveal(Seq::filter);
    }
    assert(kept@ + Seq::<Entry>::empty() =~= kept@);
    kept
}

/// The text by which the engine reports a second user of the same name.
pub open spec fn username_conflict_marker() -> Seq<char> {
    "UNIQUE constraint failed: users.username"@
}

pub open spec fn taken_message() -> Seq<char> {
    "Username is already taken"@
}

/// The error that reports a failed user insert, given the engine's message
/// if it carried one: a clash on the unique username is a bad request, any
/// other failure a database error.
pub fn insert_failure_error(message: Option<String>, error: rusqlite::Error) -> (r: AppError)
    ensures
        (message matches Some(m) && occurs_in(m@, username_conflict_marker())) ==> is_bad_request(
            r,
            taken_message(),
        ),
        !(message matches Some(m) && occurs_in(m@, username_conflict_marker())) ==> r
            == AppError::DatabaseError(error),
{
    match message {
        Some(m) => {
            if contains_text(m.as_str(), "UNIQUE constraint failed: users.username") {
                AppError::BadRequest(String::from_str("Username is already taken"))
            } else {
                AppError::DatabaseError(error)
            }
        },
        None => AppError::DatabaseError(error),
    }
}

/// The username rule as a whole: the shape of `username_pattern`, and no two
/// neighbouring separators.
pub open spec fn username_accepted(u: Seq<char>) -> bool {
    regex_outcome(username_pattern(), u) == Some(true) && !has_special_run(u)
}

/// Registers a user: the username is checked, then the password, then the
/// password is hashed and the user stored, in that order; the first failure
/// ends the work and is returned.
pub fn register_user(conn: &rusqlite::Connection, new_user: &NewUser) -> (r: Result<(), AppError>)
    ensures
        !username_accepted(new_user.username@) ==> r matches Err(AppError::BadRequest(_)),
        regex_outcome(username_pattern(), new_user.username@) != Some(true) ==> r is Err
            && is_bad_request(r->Err_0, crate::auth::format_message()),
        regex_outcome(username_pattern(), new_user.username@) == Some(true) && has_special_run(
            new_user.username@,
        ) ==> r is Err && is_bad_request(r->Err_0, crate::auth::run_message()),
        username_accepted(new_user.username@) && !strong_password(new_user.password@) ==> r is Err
            && is_bad_request(r->Err_0, crate::auth::password_rule_message()),
        r is Ok ==> username_accepted(new_user.username@) && strong_password(new_user.password@),
        (r is Err && username_accepted(new_user.username@) && strong_password(new_user.password@))
            ==> (r->Err_0 is Argon2Error || r->Err_0 is DatabaseError || is_bad_request(
            r->Err_0,
            taken_message(),
        )),
{
    match validate_username(new_user.username.as_str()) {
        Ok(()) => {},
        Err(e) => return Err(e),
    }
    match validate_password_strength(new_user.password.as_str()) {
        Ok(()) => {},
        Err(e) => return Err(e),
    }
    let password_hash = match <argon2::Argon2 as PasswordHandler>::hash_password(
        new_user.password.as_str(),
    ) {
        Ok(h) => h,
        Err(e) => return Err(e),
    };
    let stmt = insert_user_statement(new_user.username.as_str(), password_hash, local_now_text());
    match run(conn, &stmt) {
        Ok(_) => Ok(()),
        Err(e) => {
            let message = failure_message(&e);
            Err(insert_failure_error(message, e))
        },
    }
}

/// A stored user as a login sees it: id, name and hash text.
pub open spec fn found_view(found: Option<(i32, String, String)>) -> Option<(i32, Seq<char>, Seq<char>)> {
    match found {
        Some(t) => Some((t.0, t.1@, t.2@)),
        None => None,
    }
}

/// What a login yields for the stored user found under the given name (if
/// any) and a candidate password: the id and name when the password verifies
/// against the stored hash, nothing otherwise.
pub open spec fn login_outcome(found: Option<(i32, Seq<char>, Seq<char>)>, password: Seq<char>) -> Option<(i32, Seq<char>)> {
    match found {
        Some(t) => if argon2_check(t.2, password) == Some(true) {
            Some((t.0, t.1))
        } else {
            None
        },
        None => None,
    }
}

/// A login under an unknown name and a login under a known name with a
/// password that does not verify have the same outcome.
pub proof fn lemma_login_failures_alike(
    user_id: i32,
    username: Seq<char>,
    stored_hash: Seq<char>,
    password: Seq<char>,
)
    requires
        argon2_check(stored_hash, password) != Some(true),
    ensures
        login_outcome(None, password) == login_outcome(Some((user_id, username, stored_hash)), password),
        login_outcome(None, password) is None,
{
}

/// Finishes a login once the user has been looked up: an unknown user and a
/// password that does not verify fail alike with `InvalidCredentials`.
pub fn complete_login(found: Option<(i32, String, String)>, password: &str) -> (r: Result<
    (i32, String),
    AppError,
>)
    ensures
        r is Ok <==> login_outcome(found_view(found), password@) is Some,
        r matches Ok(v) ==> login_outcome(found_view(found), password@) == Some((v.0, v.1@)),
        r matches Err(e) ==> e is InvalidCredentials,
{
    match found {
        None => Err(AppError::InvalidCredentials),
        Some((user_id, username, stored_hash)) => {
            match <argon2::Argon2 as PasswordHandler>::verify_password(
                stored_hash.as_str(),
                password,
            ) {
                Ok(()) => Ok((user_id, username)),
                Err(_) => Err(AppError::InvalidCredentials),
            }
        },
    }
}

/// Logs a user in by name and password; see `complete_login` for the outcome
/// once the lookup has answered.
pub fn login_user(conn: &rusqlite::Connection, user: &NewUser) -> (r: Result<(i32, String), AppError>)
    ensures
        r matches Err(e) ==> e is InvalidCredentials || e is DatabaseError,
        r matches Ok(v) ==> exists|h: Seq<char>| argon2_check(h, user.password@) == Some(true),
{
    let stmt = find_user_statement(user.username.as_str());
    match sql_query_user(conn, stmt.sql.as_str(), &stmt.params) {
        Err(e) => Err(AppError::DatabaseError(e)),
        Ok(found) => complete_login(found, user.password.as_str()),
    }
}

} // verus!
