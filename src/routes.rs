use vstd::prelude::*;
use vstd::string::StringExecFns;
use crate::dates::CalendarDate;
use crate::db::{
    self, username_accepted, BatchDeleteError, DateFilter, Entry, NewEntry, NewUser,
};
use crate::auth::{
    format_message, has_special_run, password_rule_message, regex_outcome, run_message,
    strong_password, username_pattern,
};
use crate::errors::AppError;
use crate::session::{authorize_user, authorized, SessionState};

verus! {

/// An answer to a request: a status code and a message.
pub struct Reply {
    pub status: u16,
    pub body: String,
}

/// The optional dates of an entry listing request.
pub struct DateQueryParams {
    pub date_from: Option<CalendarDate>,
    pub date_to: Option<CalendarDate>,
}

impl DateQueryParams {
    pub open spec fn wf(self) -> bool {
        &&& (self.date_from matches Some(d) ==> d.wf())
        &&& (self.date_to matches Some(d) ==> d.wf())
    }
}

/// The entry ids of a batch delete request.
pub struct DeleteMultipleEntries {
    pub entry_ids: Vec<i32>,
}

/// The filter a listing request asks for: both dates give a range, a start
/// date alone a single day, and anything else (an end date alone included)
/// no filter.
pub open spec fn filter_of(q: DateQueryParams) -> DateFilter {
    match (q.date_from, q.date_to) {
        (Some(a), Some(b)) => DateFilter::Range(a, b),
        (Some(a), None) => DateFilter::Single(a),
        _ => DateFilter::NoFilter,
    }
}

/// The filter a listing request asks for.
pub fn date_filter_of(query: &DateQueryParams) -> (r: DateFilter)
    ensures
        r == filter_of(*query),
{
    match (query.date_from, query.date_to) {
        (Some(from), Some(to)) => DateFilter::Range(from, to),
        (Some(from), None) => DateFilter::Single(from),
        _ => DateFilter::NoFilter,
    }
}

fn reply(status: u16, body: &str) -> (r: Reply)
    ensures
        r.status == status,
        r.body@ == body@,
{
    Reply { status, body: String::from_str(body) }
}

/// The answer to a registration, given how `register_user` went: success is
/// 200, a bad request 400 with its message, a store failure 500; any other
/// error is handed back.
pub fn register_reply(outcome: Result<(), AppError>) -> (r: Result<Reply, AppError>)
    ensures
        outcome is Ok ==> (r matches Ok(a) && a.status == 200 && a.body@
            == "User registered successfully"@),
        outcome matches Err(AppError::BadRequest(m)) ==> (r matches Ok(a) && a.status == 400
            && a.body@ == m@),
        outcome matches Err(AppError::DatabaseError(_)) ==> (r matches Ok(a) && a.status == 500
            && a.body@ == "Internal server error"@),
        (outcome matches Err(e) && !(e is BadRequest) && !(e is DatabaseError)) ==> (r is Err
            && r->Err_0 == outcome->Err_0),
{
    match outcome {
        Ok(()) => Ok(reply(200, "User registered successfully")),
        Err(AppError::BadRequest(msg)) => Ok(Reply { status: 400, body: msg }),
        Err(AppError::DatabaseError(_)) => Ok(reply(500, "Internal server error")),
        Err(e) => Err(e),
    }
}

/// Registers a user. A rejected username or password, or a name already in
/// use, is answered with 400 and its message; a store failure with 500; a
/// hashing failure is returned as an error.
pub fn register(conn: &rusqlite::Connection, new_user: &NewUser) -> (r: Result<Reply, AppError>)
    ensures
        r matches Ok(a) ==> (a.status == 200 || a.status == 400 || a.status == 500),
        !username_accepted(new_user.username@) ==> (r matches Ok(a) && a.status == 400),
        regex_outcome(username_pattern(), new_user.username@) != Some(true) ==> (r matches Ok(a)
            && a.body@ == format_message()),
        regex_outcome(username_pattern(), new_user.username@) == Some(true) && has_special_run(
            new_user.username@,
        ) ==> (r matches Ok(a) && a.status == 400 && a.body@ == run_message()),
        username_accepted(new_user.username@) && !strong_password(new_user.password@) ==> (r matches Ok(a)
            && a.status == 400 && a.body@ == password_rule_message()),
        r matches Ok(a) && a.status == 200 ==> username_accepted(new_user.username@)
            && strong_password(new_user.password@),
        r matches Err(e) ==> e is Argon2Error,
{
    register_reply(db::register_user(conn, new_user))
}

/// The answer to a login, given how `login_user` went: on success the session
/// is bound to the returned identity and the answer is 200; bad credentials
/// are answered 401 and leave the session as it was; any other error is
/// handed back, the session unchanged.
pub fn finish_login(session: &mut SessionState, outcome: Result<(i32, String), AppError>) -> (r:
    Result<Reply, AppError>)
    ensures
        outcome matches Ok(v) ==> (r matches Ok(a) && a.status == 200 && a.body@
            == "Login successful"@ && final(session).identity() == Some((v.0, v.1@))),
        outcome matches Err(AppError::InvalidCredentials) ==> (r matches Ok(a) && a.status == 401
            && a.body@ == "Invalid username or password"@),
        outcome is Err ==> *final(session) == *old(session),
        (outcome matches Err(e) && !(e is InvalidCredentials)) ==> r is Err && r->Err_0
            == outcome->Err_0,
{
    match outcome {
        Ok((user_id, username)) => {
            session.bind(user_id, username);
            Ok(reply(200, "Login successful"))
        },
        Err(AppError::InvalidCredentials) => Ok(reply(401, "Invalid username or password")),
        Err(e) => Err(e),
    }
}

/// Logs a user in and binds the session to them. Bad credentials, an
/// unknown name and a wrong password alike, are answered with 401 and leave
/// the session as it was.
pub fn login(conn: &rusqlite::Connection, session: &mut SessionState, user: &NewUser) -> (r: Result<
    Reply,
    AppError,
>)
    ensures
        r matches Ok(a) ==> (a.status == 200 || a.status == 401),
        r matches Ok(a) && a.status == 200 ==> final(session).identity() is Some,
        r matches Ok(a) ==> (a.status == 401 ==> a.body@ == "Invalid username or password"@),
        !(r matches Ok(a) && a.status == 200) ==> *final(session) == *old(session),
        r matches Err(e) ==> e is DatabaseError,
{
    finish_login(session, db::login_user(conn, user))
}

/// Ends the session; always succeeds.
pub fn logout(session: &mut SessionState) -> (r: Reply)
    ensures
        final(session).user_id is None,
        final(session).username is None,
        r.status == 200,
        r.body@ == "Logged out successfully"@,
{
    session.purge();
    reply(200, "Logged out successfully")
}

/// The identity bound to the session, both fields or neither.
pub fn get_session(session: &SessionState) -> (r: (Option<i32>, Option<String>))
    ensures
        r.0 is Some <==> r.1 is Some,
        session.identity() matches Some(v) ==> (r.0 == Some(v.0) && (r.1 matches Some(n) && n@ == v.1)),
        session.identity() is None ==> r.0 is None,
{
    match session.current_identity() {
        Some((id, name)) => (Some(id), Some(name)),
        None => (None, None),
    }
}

/// Lists the entries of `user_id` for the session bound to that user.
pub fn get_entries(
    conn: &rusqlite::Connection,
    session: &SessionState,
    user_id: i32,
    query: &DateQueryParams,
) -> (r: Result<Vec<Entry>, AppError>)
    requires
        query.wf(),
    ensures
        !authorized(*session, user_id) ==> r matches Err(AppError::Unauthorized),
        r matches Ok(v) ==> forall|k: int| 0 <= k < v.len() ==> (#[trigger] v[k]).user_id == user_id,
{
    match authorize_user(session, user_id) {
        Ok(()) => {},
        Err(e) => return Err(e),
    }
    let date_filter = date_filter_of(query);
    db::get_user_entries(conn, user_id, date_filter)
}

/// Adds an entry of `user_id` for the session bound to that user.
pub fn add_entry(
    conn: &rusqlite::Connection,
    session: &SessionState,
    user_id: i32,
    new_entry: &NewEntry,
) -> (r: Result<Reply, AppError>)
    ensures
        !authorized(*session, user_id) ==> r matches Err(AppError::Unauthorized),
        r matches Ok(a) ==> a.status == 200,
{
    match authorize_user(session, user_id) {
        Ok(()) => {},
        Err(e) => return Err(e),
    }
    match db::add_user_entry(conn, user_id, new_entry) {
        Ok(()) => Ok(reply(200, "Entry added successfully")),
        Err(e) => Err(AppError::DatabaseError(e)),
    }
}

/// Edits an entry of `user_id` for the session bound to that user.
pub fn edit_entry(
    conn: &rusqlite::Connection,
    session: &SessionState,
    user_id: i32,
    entry_id: i32,
    new_entry: &NewEntry,
) -> (r: Result<Reply, AppError>)
    ensures
        !authorized(*session, user_id) ==> r matches Err(AppError::Unauthorized),
        r matches Ok(a) ==> a.status == 200,
{
    match authorize_user(session, user_id) {
        Ok(()) => {},
        Err(e) => return Err(e),
    }
    match db::edit_user_entry(conn, user_id, entry_id, new_entry) {
        Ok(()) => Ok(reply(200, "Entry updated successfully")),
        Err(e) => Err(AppError::DatabaseError(e)),
    }
}

/// Deletes an entry of `user_id` for the session bound to that user.
pub fn delete_entry(
    conn: &rusqlite::Connection,
    session: &SessionState,
    user_id: i32,
    entry_id: i32,
) -> (r: Result<Reply, AppError>)
    ensures
        !authorized(*session, user_id) ==> r matches Err(AppError::Unauthorized),
        r matches Ok(a) ==> a.status == 200,
{
    match authorize_user(session, user_id) {
        Ok(()) => {},
        Err(e) => return Err(e),
    }
    match db::delete_user_entry(conn, user_id, entry_id) {
        Ok(()) => Ok(reply(200, "Entry deleted successfully")),
        Err(e) => Err(AppError::DatabaseError(e)),
    }
}

/// The answer to a batch delete, given how `delete_user_entries` went:
/// success is 200; a failure is the database error of the first delete that
/// failed.
pub fn batch_reply(outcome: Result<(), BatchDeleteError>) -> (r: Result<Reply, AppError>)
    ensures
        outcome is Ok ==> (r matches Ok(a) && a.status == 200 && a.body@
            == "Selected entries deleted successfully"@),
        outcome matches Err(b) ==> r == Err::<Reply, AppError>(AppError::DatabaseError(b.error)),
{
    match outcome {
        Ok(()) => Ok(reply(200, "Selected entries deleted successfully")),
        Err(BatchDeleteError { failed_at: _, error }) => Err(AppError::DatabaseError(error)),
    }
}

/// Deletes several entries of `user_id` for the session bound to that user,
/// in order and without rollback; the first failure is returned.
pub fn delete_multiple_entries(
    conn: &rusqlite::Connection,
    session: &SessionState,
    user_id: i32,
    data: &DeleteMultipleEntries,
) -> (r: Result<Reply, AppError>)
    ensures
        !authorized(*session, user_id) ==> r matches Err(AppError::Unauthorized),
        authorized(*session, user_id) ==> (r matches Err(e) ==> e is DatabaseError),
        r matches Ok(a) ==> (a.status == 200 && a.body@ == "Selected entries deleted successfully"@),
        authorized(*session, user_id) && data.entry_ids.len() == 0 ==> r is Ok,
{
    match authorize_user(session, user_id) {
        Ok(()) => {},
        Err(e) => return Err(e),
    }
    batch_reply(db::delete_user_entries(conn, user_id, &data.entry_ids))
}

} // verus!
