//! Errors of the HTTP layer and how each is answered.

use vstd::prelude::*;
use crate::utils::text::join2;

verus! {
/// Error of the HTTP layer, with the status it is answered with.
#[derive(Debug, Clone, PartialEq, Eq)]
pub enum AppError {
    Database(String),
    Auth(String),
    RateLimit,
    ValidationError(String),
    ExternalService(String),
    NotFound(String),
}

/// The HTTP status and the client-facing message for an application error.
/// Internal details of database and upstream failures are not disclosed.
pub open spec fn app_error_response(e: AppError) -> (u16, Seq<char>) {
    match e {
        AppError::Database(_) => (500, "Internal server error"@),
        AppError::Auth(m) => (401, m@),
        AppError::RateLimit => (429, "Rate limit exceeded"@),
        AppError::ValidationError(m) => (400, m@),
        AppError::ExternalService(_) => (502, "External service error"@),
        AppError::NotFound(m) => (404, m@),
    }
}

/// The text an application error displays.
pub open spec fn app_error_text(e: AppError) -> Seq<char> {
    match e {
        AppError::Database(m) => "Database error: "@ + m@,
        AppError::Auth(m) => "Authentication error: "@ + m@,
        AppError::RateLimit => "Rate limit exceeded"@,
        AppError::ValidationError(m) => "Invalid input: "@ + m@,
        AppError::ExternalService(m) => "External service error: "@ + m@,
        AppError::NotFound(m) => "Not found: "@ + m@,
    }
}

impl AppError {
    /// The HTTP status code and the message sent to the client.
    pub fn status_and_message(&self) -> (r: (u16, String))
        ensures
            (r.0, r.1@) == app_error_response(*self),
    {
        match self {
            AppError::Database(_) => (500, "Internal server error".to_owned()),
            AppError::Auth(m) => (401, m.clone()),
            AppError::RateLimit => (429, "Rate limit exceeded".to_owned()),
            AppError::ValidationError(m) => (400, m.clone()),
            AppError::ExternalService(_) => (502, "External service error".to_owned()),
            AppError::NotFound(m) => (404, m.clone()),
        }
    }

    /// The text this error displays.
    pub fn message(&self) -> (s: String)
        ensures
            s@ == app_error_text(*self),
    {
        match self {
            AppError::Database(m) => join2("Database error: ", m.as_str()),
            AppError::Auth(m) => join2("Authentication error: ", m.as_str()),
            AppError::RateLimit => "Rate limit exceeded".to_owned(),
            AppError::ValidationError(m) => join2("Invalid input: ", m.as_str()),
            AppError::ExternalService(m) => join2("External service error: ", m.as_str()),
            AppError::NotFound(m) => join2("Not found: ", m.as_str()),
        }
    }
}

} // verus!
