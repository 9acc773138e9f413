//! Application-level error type.
//!
//! [`AppError`] is the single error type returned by all route handlers. The
//! application turns it into an HTTP response with the status code and the
//! client-facing message that [`AppError::status_and_message`] gives, and a
//! JSON body of the form `{ "error": "<message>" }`.
use vstd::prelude::*;
use vstd::string::StringExecFns;

verus! {

/// Typed application errors returned by route handlers and middleware.
///
/// Each variant maps to a specific HTTP status code.
#[derive(Debug, Clone, PartialEq, Eq)]
pub enum AppError {
    /// A requested resource could not be found. Maps to `404 Not Found`.
    NotFound(String),
    /// A database operation failed. The inner message is logged server-side;
    /// the client receives a generic `"A database error occurred"` message.
    /// Maps to `500 Internal Server Error`.
    Database(String),
    /// The request lacked valid credentials. Maps to `401 Unauthorized`.
    Unauthorized,
    /// The request payload was malformed or violated a business rule. Maps to
    /// `400 Bad Request`.
    BadRequest(String),
    /// An unexpected server-side failure occurred. The inner message is logged
    /// server-side; the client receives a generic message. Maps to
    /// `500 Internal Server Error`.
    Internal(String),
    /// The endpoint exists but has not been implemented yet. Maps to
    /// `501 Not Implemented`.
    NotImplemented,
}

impl AppError {
    /// The HTTP status code of the error.
    pub open spec fn status_spec(self) -> u16 {
        match self {
            AppError::NotFound(_) => 404,
            AppError::Database(_) => 500,
            AppError::Unauthorized => 401,
            AppError::BadRequest(_) => 400,
            AppError::Internal(_) => 500,
            AppError::NotImplemented => 501,
        }
    }

    /// The message the client receives: the inner message for not-found and
    /// bad-request errors, a generic text for the others.
    pub open spec fn client_message_spec(self) -> Seq<char> {
        match self {
            AppError::NotFound(msg) => msg@,
            AppError::Database(_) => "A database error occurred"@,
            AppError::Unauthorized => "Unauthorized"@,
            AppError::BadRequest(msg) => msg@,
            AppError::Internal(_) => "An internal error occurred"@,
            AppError::NotImplemented => "Not Implemented"@,
        }
    }

    /// Whether the error's inner message is logged server-side (database and
    /// internal errors, whose details are hidden from the client).
    pub open spec fn is_logged_spec(self) -> bool {
        self is Database || self is Internal
    }

    /// The status code and client-facing message for this error.
    pub fn status_and_message(&self) -> (r: (u16, String))
        ensures
            r.0 == self.status_spec(),
            r.1@ == self.client_message_spec(),
    {
        match self {
            AppError::NotFound(msg) => (404, msg.clone()),
            AppError::Database(_) => (500, String::from_str("A database error occurred")),
            AppError::Unauthorized => (401, String::from_str("Unauthorized")),
            AppError::BadRequest(msg) => (400, msg.clone()),
            AppError::Internal(_) => (500, String::from_str("An internal error occurred")),
            AppError::NotImplemented => (501, String::from_str("Not Implemented")),
        }
    }

    /// Whether the inner message is logged server-side.
    pub fn is_logged(&self) -> (r: bool)
        ensures
            r == self.is_logged_spec(),
    {
        match self {
            AppError::Database(_) | AppError::Internal(_) => true,
            _ => false,
        }
    }
}

} // verus!
