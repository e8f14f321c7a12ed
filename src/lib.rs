//! A personal-journal service core: credential rules and hashing, session
//! authorization, and ownership-scoped entry queries.

pub mod auth;
pub mod dates;
pub mod db;
pub mod errors;
pub mod routes;
pub mod session;
