use rusqlite::Connection;
use self_diary::dates::CalendarDate;
use self_diary::db::{
    batch_next, find_user_statement, keep_owned, BatchDeleteError, Entry,
    add_user_entry, build_date_filter, contains_text, delete_entry_statement, delete_user_entries,
    delete_user_entry, edit_user_entry, get_user_entries, init_db, insert_failure_error,
    list_entries_statement, login_user, register_user, update_entry_statement, DateFilter, NewEntry,
    NewUser, SqlValue,
};
use self_diary::errors::AppError;
use self_diary::routes::{
    batch_reply, date_filter_of, delete_multiple_entries, get_entries, login, register, DateQueryParams,
    DeleteMultipleEntries,
};
use self_diary::session::SessionState;

fn day(y: i32, m: u32, d: u32) -> CalendarDate {
    CalendarDate::new(y, m, d).unwrap()
}

fn fresh() -> Connection {
    let conn = Connection::open_in_memory().unwrap();
    init_db(&conn).unwrap();
    for id in 1..=4 {
        conn.execute(
            "INSERT INTO users (id, username, password_hash, created_at) VALUES (?1, ?2, 'x', '2024-01-01')",
            (id, format!("owner{}", id)),
        )
        .unwrap();
    }
    conn
}

fn put(conn: &Connection, id: i32, user_id: i32, content: &str, created_at: &str) {
    conn.execute(
        "INSERT INTO entries (id, user_id, content, recordings_map, created_at) VALUES (?1, ?2, ?3, '[]', ?4)",
        (id, user_id, content, created_at),
    )
    .unwrap();
}

fn rows(conn: &Connection) -> Vec<(i32, i32, String)> {
    let mut stmt = conn.prepare("SELECT id, user_id, content FROM entries ORDER BY id").unwrap();
    let it = stmt.query_map([], |r| Ok((r.get(0)?, r.get(1)?, r.get(2)?))).unwrap();
    it.map(|x| x.unwrap()).collect()
}

fn user(name: &str, password: &str) -> NewUser {
    NewUser { username: name.to_string(), password: password.to_string() }
}

fn ids(v: &[self_diary::db::Entry]) -> Vec<i32> {
    let mut out: Vec<i32> = v.iter().map(|e| e.id).collect();
    out.sort();
    out
}

#[test]
fn dates_print_as_iso() {
    assert_eq!(day(2024, 1, 5).to_text(), "2024-01-05");
    assert_eq!(day(987, 12, 31).to_text(), "0987-12-31");
    assert_eq!(day(2024, 2, 29).to_text(), "2024-02-29");
    assert!(CalendarDate::new(2023, 2, 29).is_none());
    assert!(CalendarDate::new(1900, 2, 29).is_none());
    assert!(CalendarDate::new(2000, 2, 29).is_some());
    assert!(CalendarDate::new(2024, 4, 31).is_none());
    assert!(CalendarDate::new(2024, 13, 1).is_none());
    assert!(CalendarDate::new(10000, 1, 1).is_none());
}

#[test]
fn date_filter_clauses() {
    let (q, p) = build_date_filter(DateFilter::NoFilter);
    assert_eq!(q, "");
    assert!(p.is_empty());
    let (q, p) = build_date_filter(DateFilter::Single(day(2024, 3, 9)));
    assert_eq!(q, " AND DATE(created_at) = ?2");
    assert_eq!(p, vec!["2024-03-09".to_string()]);
    let (q, p) = build_date_filter(DateFilter::Range(day(2024, 1, 1), day(2024, 1, 31)));
    assert_eq!(q, " AND DATE(created_at) BETWEEN ?2 AND ?3");
    assert_eq!(p, vec!["2024-01-01".to_string(), "2024-01-31".to_string()]);
}

#[test]
fn list_query_is_owner_scoped() {
    let s = list_entries_statement(4, DateFilter::Single(day(2024, 3, 9)));
    assert_eq!(
        s.sql,
        "SELECT id, user_id, content, recordings_map, created_at FROM entries WHERE user_id = ?1 AND DATE(created_at) = ?2"
    );
    assert_eq!(s.params.len(), 2);
    assert!(matches!(s.params[0], SqlValue::Int(4)));
    assert!(matches!(&s.params[1], SqlValue::Text(t) if t == "2024-03-09"));
}

#[test]
fn mutation_statements_bind_owner() {
    let d = delete_entry_statement(3, 9);
    assert_eq!(d.sql, "DELETE FROM entries WHERE id = ?1 AND user_id = ?2");
    assert!(matches!(d.params[..], [SqlValue::Int(9), SqlValue::Int(3)]));
    let e = NewEntry { content: "c".to_string(), recordings_map: "[]".to_string() };
    let u = update_entry_statement(3, 9, &e);
    assert_eq!(u.sql, "UPDATE entries SET content = ?1, recordings_map = ?2 WHERE id = ?3 AND user_id = ?4");
    assert!(matches!(u.params[2..], [SqlValue::Int(9), SqlValue::Int(3)]));
}

#[test]
fn query_params_choose_filter() {
    let a = day(2024, 1, 1);
    let b = day(2024, 1, 31);
    let q = DateQueryParams { date_from: Some(a), date_to: Some(b) };
    assert!(matches!(date_filter_of(&q), DateFilter::Range(x, y) if x == a && y == b));
    let q = DateQueryParams { date_from: Some(a), date_to: None };
    assert!(matches!(date_filter_of(&q), DateFilter::Single(x) if x == a));
    let q = DateQueryParams { date_from: None, date_to: Some(b) };
    assert!(matches!(date_filter_of(&q), DateFilter::NoFilter));
    let q = DateQueryParams { date_from: None, date_to: None };
    assert!(matches!(date_filter_of(&q), DateFilter::NoFilter));
}

#[test]
fn text_search() {
    assert!(contains_text("UNIQUE constraint failed: users.username", "users.username"));
    assert!(contains_text("abc", ""));
    assert!(!contains_text("ab", "abc"));
    assert!(!contains_text("users.user", "users.username"));
}

#[test]
fn insert_failure_classified() {
    let e = insert_failure_error(
        Some("UNIQUE constraint failed: users.username".to_string()),
        rusqlite::Error::QueryReturnedNoRows,
    );
    assert!(matches!(e, AppError::BadRequest(m) if m == "Username is already taken"));
    let e = insert_failure_error(Some("disk I/O error".to_string()), rusqlite::Error::QueryReturnedNoRows);
    assert!(matches!(e, AppError::DatabaseError(_)));
    let e = insert_failure_error(None, rusqlite::Error::QueryReturnedNoRows);
    assert!(matches!(e, AppError::DatabaseError(_)));
}

#[test]
fn register_then_login() {
    let conn = fresh();
    register_user(&conn, &user("alice", "Abcdef1!")).unwrap();
    let (id, name) = login_user(&conn, &user("alice", "Abcdef1!")).unwrap();
    assert_eq!(name, "alice");
    assert!(id > 0);
    let taken = register_user(&conn, &user("alice", "Xyzxyz9?"));
    assert!(matches!(taken, Err(AppError::BadRequest(m)) if m == "Username is already taken"));
}

#[test]
fn register_checks_in_order() {
    let conn = fresh();
    let r = register_user(&conn, &user("a..b", "weak"));
    assert!(matches!(r, Err(AppError::BadRequest(m)) if m == "Username cannot have consecutive special characters."));
    let r = register_user(&conn, &user("carol", "weak"));
    assert!(matches!(r, Err(AppError::BadRequest(m)) if m.starts_with("Password must be")));
    assert_eq!(conn.query_row("SELECT COUNT(*) FROM users", [], |r| r.get::<_, i64>(0)).unwrap(), 4);
}

#[test]
fn login_failures_are_alike() {
    let conn = fresh();
    register_user(&conn, &user("dave", "Abcdef1!")).unwrap();
    let unknown = login_user(&conn, &user("nobody", "Abcdef1!"));
    let wrong = login_user(&conn, &user("dave", "Abcdef1?"));
    assert!(matches!(unknown, Err(AppError::InvalidCredentials)));
    assert!(matches!(wrong, Err(AppError::InvalidCredentials)));
}

#[test]
fn login_route_binds_session() {
    let conn = fresh();
    let r = register(&conn, &user("erin", "Abcdef1!")).unwrap();
    assert_eq!(r.status, 200);
    let r = register(&conn, &user("1erin", "Abcdef1!")).unwrap();
    assert_eq!((r.status, r.body.as_str()), (400, "Invalid username format."));
    let mut s = SessionState::anonymous();
    let r = login(&conn, &mut s, &user("erin", "nope")).unwrap();
    assert_eq!((r.status, r.body.as_str()), (401, "Invalid username or password"));
    assert!(s.current_identity().is_none());
    let r = login(&conn, &mut s, &user("erin", "Abcdef1!")).unwrap();
    assert_eq!(r.status, 200);
    assert_eq!(s.current_identity().map(|(_, n)| n), Some("erin".to_string()));
}

#[test]
fn foreign_edit_and_delete_change_nothing() {
    let conn = fresh();
    put(&conn, 1, 1, "mine", "2024-01-10 09:00:00");
    put(&conn, 2, 2, "theirs", "2024-01-11 09:00:00");
    let before = rows(&conn);
    let e = NewEntry { content: "hacked".to_string(), recordings_map: "[]".to_string() };
    edit_user_entry(&conn, 1, 2, &e).unwrap();
    delete_user_entry(&conn, 1, 2).unwrap();
    assert_eq!(rows(&conn), before);
    edit_user_entry(&conn, 2, 2, &e).unwrap();
    assert_eq!(rows(&conn)[1].2, "hacked");
    delete_user_entry(&conn, 2, 2).unwrap();
    assert_eq!(rows(&conn).len(), 1);
}

#[test]
fn list_range_is_inclusive_and_owned() {
    let conn = fresh();
    put(&conn, 1, 1, "first", "2024-01-01 08:00:00");
    put(&conn, 2, 1, "mid", "2024-01-15 12:00:00");
    put(&conn, 3, 1, "last", "2024-01-31 23:00:00");
    put(&conn, 4, 1, "after", "2024-02-01 00:30:00");
    put(&conn, 5, 2, "other", "2024-01-15 12:00:00");
    let got = get_user_entries(&conn, 1, DateFilter::Range(day(2024, 1, 1), day(2024, 1, 31))).unwrap();
    assert_eq!(ids(&got), vec![1, 2, 3]);
    assert!(got.iter().all(|e| e.user_id == 1));
    let got = get_user_entries(&conn, 1, DateFilter::Single(day(2024, 1, 15))).unwrap();
    assert_eq!(ids(&got), vec![2]);
    let got = get_user_entries(&conn, 1, DateFilter::NoFilter).unwrap();
    assert_eq!(ids(&got), vec![1, 2, 3, 4]);
}

#[test]
fn added_entries_are_listed() {
    let conn = fresh();
    let e = NewEntry { content: "hello".to_string(), recordings_map: "[\"a.webm\"]".to_string() };
    add_user_entry(&conn, 3, &e).unwrap();
    let got = get_user_entries(&conn, 3, DateFilter::NoFilter).unwrap();
    assert_eq!(got.len(), 1);
    assert_eq!(got[0].content, "hello");
    assert_eq!(got[0].recordings_map, "[\"a.webm\"]");
    assert!(get_user_entries(&conn, 4, DateFilter::NoFilter).unwrap().is_empty());
}

#[test]
fn batch_delete_stops_at_first_failure() {
    let conn = fresh();
    put(&conn, 10, 1, "a", "2024-01-01 08:00:00");
    put(&conn, 20, 1, "b", "2024-01-02 08:00:00");
    put(&conn, 30, 1, "c", "2024-01-03 08:00:00");
    conn.execute(
        "CREATE TRIGGER keep_b BEFORE DELETE ON entries WHEN OLD.id = 20 BEGIN SELECT RAISE(ABORT, 'kept'); END",
        [],
    )
    .unwrap();
    let r = delete_user_entries(&conn, 1, &vec![10, 20, 30]);
    assert_eq!(r.unwrap_err().failed_at, 1);
    let left: Vec<i32> = rows(&conn).iter().map(|r| r.0).collect();
    assert_eq!(left, vec![20, 30]);
    assert!(delete_user_entries(&conn, 1, &vec![]).is_ok());
}

#[test]
fn routes_refuse_other_users() {
    let conn = fresh();
    put(&conn, 1, 1, "a", "2024-01-01 08:00:00");
    let mut s = SessionState::anonymous();
    s.bind(2, "mallory".to_string());
    let q = DateQueryParams { date_from: None, date_to: None };
    assert!(matches!(get_entries(&conn, &s, 1, &q), Err(AppError::Unauthorized)));
    let d = DeleteMultipleEntries { entry_ids: vec![1] };
    assert!(matches!(delete_multiple_entries(&conn, &s, 1, &d), Err(AppError::Unauthorized)));
    assert_eq!(rows(&conn).len(), 1);
    let mut owner = SessionState::anonymous();
    owner.bind(1, "amy".to_string());
    assert_eq!(get_entries(&conn, &owner, 1, &q).unwrap().len(), 1);
    assert_eq!(delete_multiple_entries(&conn, &owner, 1, &d).unwrap().status, 200);
    assert!(rows(&conn).is_empty());
}

fn entry(id: i32, user_id: i32) -> Entry {
    Entry {
        id,
        user_id,
        content: String::new(),
        recordings_map: "[]".to_string(),
        created_at: "2024-01-01 00:00:00".to_string(),
    }
}

#[test]
fn owned_rows_kept_in_order() {
    let rows = vec![entry(1, 1), entry(2, 2), entry(3, 1), entry(4, 3), entry(5, 1)];
    let kept: Vec<i32> = keep_owned(rows, 1).iter().map(|e| e.id).collect();
    assert_eq!(kept, vec![1, 3, 5]);
    assert!(keep_owned(vec![entry(1, 2)], 1).is_empty());
}

#[test]
fn batch_steps_stop_at_failure() {
    assert_eq!(batch_next(3, 0, true), Some(1));
    assert_eq!(batch_next(3, 1, false), None);
    assert_eq!(batch_next(3, 2, true), None);
    assert_eq!(batch_next(1, 0, false), None);
}

#[test]
fn batch_outcome_replies() {
    let r = batch_reply(Ok(())).unwrap();
    assert_eq!((r.status, r.body.as_str()), (200, "Selected entries deleted successfully"));
    let failed = BatchDeleteError { failed_at: 1, error: rusqlite::Error::QueryReturnedNoRows };
    assert!(matches!(
        batch_reply(Err(failed)),
        Err(AppError::DatabaseError(rusqlite::Error::QueryReturnedNoRows))
    ));
}

#[test]
fn user_lookup_query() {
    let s = find_user_statement("alice");
    assert_eq!(s.sql, "SELECT id, username, password_hash FROM users WHERE username = ?1");
    assert!(matches!(&s.params[..], [SqlValue::Text(t)] if t == "alice"));
}
