use vstd::prelude::*;
use crate::errors::AppError;

verus! {

/// What a server-side session holds: the identity bound at login. A session
/// that holds only one of the two fields counts as anonymous.
#[derive(Debug)]
pub struct SessionState {
    pub user_id: Option<i32>,
    pub username: Option<String>,
}

impl SessionState {
    /// The identity of the session: both fields, or none.
    pub open spec fn identity(&self) -> Option<(i32, Seq<char>)> {
        match (self.user_id, self.username) {
            (Some(id), Some(name)) => Some((id, name@)),
            _ => None,
        }
    }

    /// A session with nothing bound.
    pub fn anonymous() -> (r: SessionState)
        ensures
            r.user_id is None,
            r.username is None,
    {
        SessionState { user_id: None, username: None }
    }

    /// Binds `user_id` and `username` together.
    pub fn bind(&mut self, user_id: i32, username: String)
        ensures
            final(self).user_id == Some(user_id),
            final(self).username matches Some(n) && n@ == username@,
            final(self).identity() == Some((user_id, username@)),
    {
        self.user_id = Some(user_id);
        self.username = Some(username);
    }

    /// Clears both fields; doing it again changes nothing, and it never fails.
    pub fn purge(&mut self)
        ensures
            final(self).user_id is None,
            final(self).username is None,
    {
        self.user_id = None;
        self.username = None;
    }

    /// The bound identity, only when both fields are present.
    pub fn current_identity(&self) -> (r: Option<(i32, String)>)
        ensures
            r is None <==> self.identity() is None,
            r matches Some(v) ==> self.identity() == Some((v.0, v.1@)),
    {
        match (self.user_id, &self.username) {
            (Some(id), Some(name)) => Some((id, name.clone())),
            _ => None,
        }
    }
}

/// Whether a session may act for the owner `claimed_user_id`: its bound user
/// id must be exactly that id.
pub open spec fn authorized(session: SessionState, claimed_user_id: i32) -> bool {
    session.user_id == Some(claimed_user_id)
}

/// Admits a request for the resources of `user_id` only when the session is
/// bound to that same user id; otherwise `Unauthorized`.
pub fn authorize_user(session: &SessionState, user_id: i32) -> (r: Result<(), AppError>)
    ensures
        r is Ok <==> authorized(*session, user_id),
        r matches Err(e) ==> e is Unauthorized,
{
    match session.user_id {
        Some(id) => {
            if id == user_id {
                Ok(())
            } else {
                Err(AppError::Unauthorized)
            }
        },
        None => Err(AppError::Unauthorized),
    }
}

} // verus!
