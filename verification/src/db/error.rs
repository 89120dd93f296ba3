//! Errors of database-backed operations.

use vstd::prelude::*;
use crate::utils::text::join2;

verus! {


/// Failure of a database-backed operation.
#[derive(Debug, Clone, PartialEq, Eq)]
pub enum DbError {
    /// Failure reported by the database driver.
    RusqliteError(String),
    /// Failure described by the service itself.
    Custom(String),
}

/// The text a database error displays.
pub open spec fn db_error_text(e: DbError) -> Seq<char> {
    match e {
        DbError::RusqliteError(m) => "Database error: "@ + m@,
        DbError::Custom(m) => m@,
    }
}

impl DbError {
    /// The text this error displays.
    pub fn message(&self) -> (s: String)
        ensures
            s@ == db_error_text(*self),
    {
        match self {
            DbError::RusqliteError(m) => join2("Database error: ", m.as_str()),
            DbError::Custom(m) => m.clone(),
        }
    }

    /// A service-side failure with the given description.
    pub fn custom(message: &str) -> (e: DbError)
        ensures
            e matches DbError::Custom(m) && m@ == message@,
    {
        DbError::Custom(message.to_owned())
    }
}

impl From<String> for DbError {
    fn from(message: String) -> (e: DbError) {
        DbError::Custom(message)
    }
}

impl vstd::std_specs::convert::FromSpecImpl<String> for DbError {
    open spec fn obeys_from_spec() -> bool {
        true
    }

    open spec fn from_spec(message: String) -> DbError {
        DbError::Custom(message)
    }
}

} // verus!
