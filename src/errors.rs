use vstd::prelude::*;
use vstd::string::StringExecFns;

verus! {

#[verifier::external_type_specification]
#[verifier::external_body]
pub struct ExSqlError(rusqlite::Error);

#[verifier::external_type_specification]
#[verifier::external_body]
pub struct ExHashError(password_hash::Error);

#[verifier::external_type_specification]
#[verifier::external_body]
pub struct ExSessionInsertError(actix_session::SessionInsertError);

/// Every failure the service reports.
#[derive(Debug)]
pub enum AppError {
    DatabaseError(rusqlite::Error),
    Argon2Error(password_hash::Error),
    InvalidCredentials,
    SessionError(actix_session::SessionInsertError),
    Unauthorized,
    BadRequest(String),
}

/// The HTTP status that answers an error.
pub open spec fn status_of(e: AppError) -> u16 {
    match e {
        AppError::DatabaseError(_) => 500,
        AppError::Argon2Error(_) => 500,
        AppError::InvalidCredentials => 401,
        AppError::SessionError(_) => 500,
        AppError::Unauthorized => 403,
        AppError::BadRequest(_) => 400,
    }
}

/// A `BadRequest` error carrying exactly `msg`.
pub open spec fn is_bad_request(e: AppError, msg: Seq<char>) -> bool {
    match e {
        AppError::BadRequest(m) => m@ == msg,
        _ => false,
    }
}

/// Relies on the `Display` impl of `rusqlite::Error`, for a message text.
#[verifier::external_body]
fn sql_error_text(e: &rusqlite::Error) -> String {
    e.to_string()
}

/// Relies on the `Display` impl of `password_hash::Error`, for a message text.
#[verifier::external_body]
fn hash_error_text(e: &password_hash::Error) -> String {
    e.to_string()
}

/// Relies on the `Display` impl of `actix_session::SessionInsertError`, for a
/// message text.
#[verifier::external_body]
fn session_error_text(e: &actix_session::SessionInsertError) -> String {
    e.to_string()
}

impl AppError {
    /// The HTTP status code of the response that reports this error.
    pub fn status_code(&self) -> (r: u16)
        ensures
            r == status_of(*self),
    {
        match self {
            AppError::DatabaseError(_) => 500,
            AppError::Argon2Error(_) => 500,
            AppError::InvalidCredentials => 401,
            AppError::SessionError(_) => 500,
            AppError::Unauthorized => 403,
            AppError::BadRequest(_) => 400,
        }
    }

    /// The body of the response that reports this error: generic for server
    /// faults, the message itself for a bad request.
    pub fn response_body(&self) -> (r: String)
        ensures
            *self is DatabaseError ==> r@ == "Database error"@,
            *self is Argon2Error ==> r@ == "Password hash error"@,
            *self is InvalidCredentials ==> r@ == "Invalid credentials"@,
            *self is SessionError ==> r@ == "Session error"@,
            *self is Unauthorized ==> r@ == "Unauthorized access"@,
            *self is BadRequest ==> is_bad_request(*self, r@),
    {
        match self {
            AppError::DatabaseError(_) => String::from_str("Database error"),
            AppError::Argon2Error(_) => String::from_str("Password hash error"),
            AppError::InvalidCredentials => String::from_str("Invalid credentials"),
            AppError::SessionError(_) => String::from_str("Session error"),
            AppError::Unauthorized => String::from_str("Unauthorized access"),
            AppError::BadRequest(msg) => msg.clone(),
        }
    }

    /// The full description of the error, with the detail of an underlying
    /// failure.
    pub fn message(&self) -> (r: String)
        ensures
            *self is InvalidCredentials ==> r@ == "Invalid credentials"@,
            *self is Unauthorized ==> r@ == "Unauthorized access"@,
            *self matches AppError::BadRequest(m) ==> r@ == "Bad request: "@ + m@,
            *self is DatabaseError ==> (exists|d: Seq<char>| r@ == "Database error: "@ + d),
            *self is Argon2Error ==> (exists|d: Seq<char>| r@ == "Password hash error: "@ + d),
            *self is SessionError ==> (exists|d: Seq<char>| r@ == "Session error: "@ + d),
    {
        match self {
            AppError::DatabaseError(e) => {
                let d = sql_error_text(e);
                String::from_str("Database error: ").concat(d.as_str())
            },
            AppError::Argon2Error(e) => {
                let d = hash_error_text(e);
                String::from_str("Password hash error: ").concat(d.as_str())
            },
            AppError::InvalidCredentials => String::from_str("Invalid credentials"),
            AppError::SessionError(e) => {
                let d = session_error_text(e);
                String::from_str("Session error: ").concat(d.as_str())
            },
            AppError::Unauthorized => String::from_str("Unauthorized access"),
            AppError::BadRequest(msg) => String::from_str("Bad request: ").concat(msg.as_str()),
        }
    }
}

} // verus!
