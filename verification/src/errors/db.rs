//! Failures of the session and user store.

use crate::text::{contains_text, occurs_in};
use vstd::prelude::*;
use vstd::string::*;
use vstd::utf8::*;

verus! {

/// Why the store could not do what was asked. A failure of the store's
/// engine is kept by its message.
#[derive(Debug, Clone, PartialEq, Eq)]
pub enum DatabaseError {
    ConnectionError { source: String, context: String },
    QueryError { source: String, query: Option<String> },
    TransactionError { source: String, operation: String },
    NotFound(String),
    ConstraintViolation(String),
}

impl DatabaseError {
    /// The error's machine-readable code.
    pub open spec fn code(self) -> Seq<char> {
        match self {
            DatabaseError::ConnectionError { .. } => "DB_CONNECTION_ERROR"@,
            DatabaseError::QueryError { .. } => "DB_QUERY_ERROR"@,
            DatabaseError::TransactionError { .. } => "DB_TRANSACTION_ERROR"@,
            DatabaseError::NotFound(_) => "DB_NOT_FOUND"@,
            DatabaseError::ConstraintViolation(_) => "DB_CONSTRAINT_VIOLATION"@,
        }
    }

    /// The error in words.
    pub open spec fn text(self) -> Seq<char> {
        match self {
            DatabaseError::ConnectionError { .. } => "Database connection error"@,
            DatabaseError::QueryError { .. } => "Query execution failed"@,
            DatabaseError::TransactionError { .. } => "Transaction failed"@,
            DatabaseError::NotFound(_) => "Record not found"@,
            DatabaseError::ConstraintViolation(_) => "Constraint violation"@,
        }
    }

    /// The error in words.
    pub fn message(&self) -> (text: &'static str)
        ensures
            text@ == self.text(),
    {
        match self {
            DatabaseError::ConnectionError { .. } => "Database connection error",
            DatabaseError::QueryError { .. } => "Query execution failed",
            DatabaseError::TransactionError { .. } => "Transaction failed",
            DatabaseError::NotFound(_) => "Record not found",
            DatabaseError::ConstraintViolation(_) => "Constraint violation",
        }
    }

    /// A failed connection, with the engine's message and what was being
    /// done.
    pub fn connection_failed(error: String, context: String) -> (failure: Self)
        ensures
            failure == (DatabaseError::ConnectionError { source: error, context }),
    {
        DatabaseError::ConnectionError { source: error, context }
    }

    /// A failed query, with the engine's message and the query if it is
    /// known.
    pub fn query_failed(error: String, query: Option<String>) -> (failure: Self)
        ensures
            failure == (DatabaseError::QueryError { source: error, query }),
    {
        DatabaseError::QueryError { source: error, query }
    }

    /// A failed transaction, with the engine's message and the operation.
    pub fn transaction_failed(error: String, operation: String) -> (failure: Self)
        ensures
            failure == (DatabaseError::TransactionError { source: error, operation }),
    {
        DatabaseError::TransactionError { source: error, operation }
    }

    /// The failure that stands for a fault of the store's engine, told by
    /// its message: a fault of the engine's own that speaks of something
    /// `not found` is a missing record; else one that speaks of a
    /// `constraint` is a conflict; any other fault is a failed query.
    pub fn from_engine(own_fault: bool, message: String) -> (failure: Self)
        ensures
            failure == if own_fault && occurs_in(
                encode_utf8("not found"@),
                encode_utf8(message@),
            ) {
                DatabaseError::NotFound(message)
            } else if own_fault && occurs_in(encode_utf8("constraint"@), encode_utf8(message@)) {
                DatabaseError::ConstraintViolation(message)
            } else {
                DatabaseError::QueryError { source: message, query: None }
            },
    {
        if own_fault && contains_text(message.as_str(), "not found") {
            DatabaseError::NotFound(message)
        } else if own_fault && contains_text(message.as_str(), "constraint") {
            DatabaseError::ConstraintViolation(message)
        } else {
            DatabaseError::query_failed(message, None)
        }
    }

    /// The error's machine-readable code.
    pub fn error_code(&self) -> (code: &'static str)
        ensures
            code@ == self.code(),
    {
        match self {
            DatabaseError::ConnectionError { .. } => "DB_CONNECTION_ERROR",
            DatabaseError::QueryError { .. } => "DB_QUERY_ERROR",
            DatabaseError::TransactionError { .. } => "DB_TRANSACTION_ERROR",
            DatabaseError::NotFound(_) => "DB_NOT_FOUND",
            DatabaseError::ConstraintViolation(_) => "DB_CONSTRAINT_VIOLATION",
        }
    }
}

} // verus!
