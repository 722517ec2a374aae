//! Errors of the database layer.
use vstd::prelude::*;
use crate::platform::json_error_text;

verus! {

/// Errors that can occur when using the database.
#[derive(Debug, Clone)]
pub enum DbError {
    /// Failed to open the database.
    OpenError(String),
    /// Failed to execute a query.
    QueryError(String),
    /// Failed to deserialize a row.
    DeserializeError(String),
    /// Type conversion error.
    TypeError(String),
    /// No rows returned when one was expected.
    NotFound,
}

/// The message of a database error.
pub open spec fn db_error_message(e: DbError) -> Seq<char> {
    match e {
        DbError::OpenError(m) => "Failed to open database: "@ + m@,
        DbError::QueryError(m) => "Query execution failed: "@ + m@,
        DbError::DeserializeError(m) => "Deserialization error: "@ + m@,
        DbError::TypeError(m) => "Type conversion error: "@ + m@,
        DbError::NotFound => "No rows returned"@,
    }
}

impl DbError {
    /// The error message (what the error displays as).
    pub fn message(&self) -> (r: String)
        ensures
            r@ == db_error_message(*self),
    {
        let (head, detail) = match self {
            DbError::OpenError(m) => ("Failed to open database: ", m),
            DbError::QueryError(m) => ("Query execution failed: ", m),
            DbError::DeserializeError(m) => ("Deserialization error: ", m),
            DbError::TypeError(m) => ("Type conversion error: ", m),
            DbError::NotFound => {
                return "No rows returned".to_string();
            },
        };
        let mut s = head.to_string();
        s.append(detail.as_str());
        s
    }
}

impl From<serde_json::Error> for DbError {
    /// A deserialization error carrying the message of `serde_json`'s error.
    fn from(e: serde_json::Error) -> (r: Self)
        ensures
            r is DeserializeError,
    {
        DbError::DeserializeError(json_error_text(&e))
    }
}

impl vstd::std_specs::convert::FromSpecImpl<serde_json::Error> for DbError {
    open spec fn obeys_from_spec() -> bool {
        false
    }

    closed spec fn from_spec(e: serde_json::Error) -> DbError {
        arbitrary()
    }
}

} // verus!
