use self_diary::errors::AppError;
use self_diary::routes::{finish_login, get_session, logout, register_reply};
use self_diary::session::{authorize_user, SessionState};

fn bound(id: i32, name: &str) -> SessionState {
    let mut s = SessionState::anonymous();
    s.bind(id, name.to_string());
    s
}

#[test]
fn authorize_same_user() {
    assert!(authorize_user(&bound(5, "eve"), 5).is_ok());
}

#[test]
fn authorize_other_user_fails() {
    assert!(matches!(authorize_user(&bound(5, "eve"), 6), Err(AppError::Unauthorized)));
}

#[test]
fn authorize_unbound_fails() {
    let s = SessionState::anonymous();
    for id in [0, 5, -1, i32::MAX] {
        assert!(matches!(authorize_user(&s, id), Err(AppError::Unauthorized)));
    }
}

#[test]
fn half_bound_session_is_anonymous() {
    let s = SessionState { user_id: Some(3), username: None };
    assert!(s.current_identity().is_none());
    assert_eq!(get_session(&s), (None, None));
    let t = SessionState { user_id: None, username: Some("bob".to_string()) };
    assert!(t.current_identity().is_none());
    assert_eq!(get_session(&t), (None, None));
}

#[test]
fn bound_session_reports_identity() {
    let s = bound(7, "bob");
    assert_eq!(s.current_identity(), Some((7, "bob".to_string())));
    assert_eq!(get_session(&s), (Some(7), Some("bob".to_string())));
}

#[test]
fn purge_is_idempotent() {
    let mut s = bound(7, "bob");
    s.purge();
    assert!(s.user_id.is_none() && s.username.is_none());
    s.purge();
    assert!(s.user_id.is_none() && s.username.is_none());
    let mut t = bound(1, "amy");
    let r = logout(&mut t);
    assert_eq!(r.status, 200);
    assert_eq!(r.body, "Logged out successfully");
    assert!(t.current_identity().is_none());
}

#[test]
fn error_statuses_and_bodies() {
    assert_eq!(AppError::InvalidCredentials.status_code(), 401);
    assert_eq!(AppError::Unauthorized.status_code(), 403);
    assert_eq!(AppError::BadRequest("x".to_string()).status_code(), 400);
    assert_eq!(AppError::Unauthorized.response_body(), "Unauthorized access");
    assert_eq!(AppError::BadRequest("oops".to_string()).response_body(), "oops");
    assert_eq!(AppError::InvalidCredentials.message(), "Invalid credentials");
    assert_eq!(AppError::BadRequest("oops".to_string()).message(), "Bad request: oops");
    let e = AppError::DatabaseError(rusqlite::Error::QueryReturnedNoRows);
    assert_eq!(e.status_code(), 500);
    assert_eq!(e.response_body(), "Database error");
    assert!(e.message().starts_with("Database error: "));
}

#[test]
fn login_outcome_binds_or_refuses() {
    let mut s = SessionState::anonymous();
    let r = finish_login(&mut s, Err(AppError::InvalidCredentials)).unwrap();
    assert_eq!((r.status, r.body.as_str()), (401, "Invalid username or password"));
    assert!(s.current_identity().is_none());
    let r = finish_login(&mut s, Err(AppError::Unauthorized));
    assert!(matches!(r, Err(AppError::Unauthorized)));
    assert!(s.current_identity().is_none());
    let r = finish_login(&mut s, Ok((9, "zoe".to_string()))).unwrap();
    assert_eq!((r.status, r.body.as_str()), (200, "Login successful"));
    assert_eq!(s.current_identity(), Some((9, "zoe".to_string())));
}

#[test]
fn registration_outcome_replies() {
    let r = register_reply(Ok(())).unwrap();
    assert_eq!((r.status, r.body.as_str()), (200, "User registered successfully"));
    let r = register_reply(Err(AppError::BadRequest("Username is already taken".to_string()))).unwrap();
    assert_eq!((r.status, r.body.as_str()), (400, "Username is already taken"));
    let r = register_reply(Err(AppError::DatabaseError(rusqlite::Error::QueryReturnedNoRows))).unwrap();
    assert_eq!((r.status, r.body.as_str()), (500, "Internal server error"));
    assert!(matches!(register_reply(Err(AppError::InvalidCredentials)), Err(AppError::InvalidCredentials)));
}
