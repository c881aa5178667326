use vstd::prelude::*;
use vstd::string::*;

verus! {

/// The failure taxonomy of the core.  Every failure is reported to the
/// caller as a descriptive value; the decoder never fails at all.
#[derive(Debug, PartialEq)]
pub enum DbError {
    /// No active connection was available for the request.
    NotConnected,
    /// A raw SQL batch held no non-empty statement.
    EmptyBatch,
    /// A structured request named an operation the dispatcher does not
    /// know; carries the operation name.
    UnsupportedOperation(String),
    /// The connection reported an error executing one statement of a batch;
    /// carries the statement text and the connection's own message.
    StatementExecution { sql: String, message: String },
    /// The connection reported an error for a single query; carries its
    /// message.
    QueryFailed(String),
    /// A result could not be rendered to the output envelope; carries the
    /// renderer's message.
    SerializationFailed(String),
    /// A structured request was missing a required field or held one of the
    /// wrong shape; carries a description.
    InvalidRequest(String),
}

/// The descriptive text of an error.
pub open spec fn error_text(e: DbError) -> Seq<char> {
    match e {
        DbError::NotConnected => "not connected to a database"@,
        DbError::EmptyBatch => "no valid SQL statement"@,
        DbError::UnsupportedOperation(op) => "unsupported operation: "@ + op@,
        DbError::StatementExecution { sql, message } => "statement failed: "@ + sql@ + ": "@
            + message@,
        DbError::QueryFailed(m) => "query failed: "@ + m@,
        DbError::SerializationFailed(m) => "serialization failed: "@ + m@,
        DbError::InvalidRequest(m) => "invalid request: "@ + m@,
    }
}

impl DbError {
    /// The descriptive text of this error, for the caller's failure value.
    pub fn describe(&self) -> (r: String)
        ensures
            r@ == error_text(*self),
    {
        match self {
            DbError::NotConnected => String::from_str("not connected to a database"),
            DbError::EmptyBatch => String::from_str("no valid SQL statement"),
            DbError::UnsupportedOperation(op) => {
                let mut r = String::from_str("unsupported operation: ");
                r.append(op.as_str());
                r
            },
            DbError::StatementExecution { sql, message } => {
                let mut r = String::from_str("statement failed: ");
                r.append(sql.as_str());
                r.append(": ");
                r.append(message.as_str());
                assert(r@ =~= error_text(*self));
                r
            },
            DbError::QueryFailed(m) => {
                let mut r = String::from_str("query failed: ");
                r.append(m.as_str());
                r
            },
            DbError::SerializationFailed(m) => {
                let mut r = String::from_str("serialization failed: ");
                r.append(m.as_str());
                r
            },
            DbError::InvalidRequest(m) => {
                let mut r = String::from_str("invalid request: ");
                r.append(m.as_str());
                r
            },
        }
    }
}

} // verus!
