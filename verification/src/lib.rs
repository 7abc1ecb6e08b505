//! Verified core of an authentication and user-management web service:
//! API response shapes, the error-to-response mapping, role checks,
//! JWT issuing and checking, password hashing, and the decision logic of
//! every request handler written as a step function over the outcomes of
//! database and session-store calls.

pub mod text;
pub mod response;
pub mod error;
pub mod role;
pub mod jwt;
pub mod extractor;
pub mod password;
pub mod ids;
pub mod session;
pub mod handlers;
pub mod routes;
pub mod laws;
