//! The one error type that every operation of the authority returns.

use crate::errors::api::ApiError;
use crate::errors::auth::AuthError;
use crate::errors::db::DatabaseError;
use crate::errors::jwt::JwtError;
use crate::ids::{fresh_id, ID_LEN};
use vstd::prelude::*;
use vstd::string::*;

verus! {

/// The rules that one field of a request broke, each with its message if it
/// has one.
#[derive(Debug, Clone, PartialEq, Eq)]
pub struct FieldErrors {
    pub field: String,
    pub messages: Vec<Option<String>>,
}

/// Any failure of the authority, by its origin.
#[derive(Debug, Clone, PartialEq, Eq)]
pub enum CoreError {
    Jwt(JwtError),
    Db(DatabaseError),
    Auth(AuthError),
    Api(ApiError),
    Validation(Vec<FieldErrors>),
    Internal { message: String, trace_id: String },
}

/// What an operation returns: its value, or the failure.
pub type Result<T> = std::result::Result<T, CoreError>;

/// How grave a failure is for the log.
#[derive(Debug, Clone, Copy, PartialEq, Eq, Structural)]
pub enum LogLevel {
    Warn,
    Error,
}

/// What is written to the log about a failure.
#[derive(Debug)]
pub struct LogRecord {
    pub level: LogLevel,
    pub note: &'static str,
    pub error: String,
    pub error_code: String,
    pub trace_id: String,
}

impl CoreError {
    /// The error's machine-readable code.
    pub open spec fn code(self) -> Seq<char> {
        match self {
            CoreError::Jwt(e) => e.code(),
            CoreError::Db(e) => e.code(),
            CoreError::Auth(e) => e.code(),
            CoreError::Api(e) => e.code(),
            CoreError::Validation(_) => "VALIDATION_ERROR"@,
            CoreError::Internal { .. } => "INTERNAL_SERVER_ERROR"@,
        }
    }

    /// The error in words: its origin, then the words of the failure.
    pub open spec fn text(self) -> Seq<char> {
        match self {
            CoreError::Jwt(e) => "JWT error: "@ + e.text(),
            CoreError::Db(e) => "Database error: "@ + e.text(),
            CoreError::Auth(e) => "Authentication error: "@ + e.text(),
            CoreError::Api(e) => "API error: "@ + e.text(),
            CoreError::Validation(_) => "Validator error: request fields are invalid"@,
            CoreError::Internal { message, .. } => "Internal server error: "@ + message@,
        }
    }

    /// How grave the failure is for the log: a failure of the store, an
    /// internal failure and every failure of authentication but wrong
    /// credentials and an expired token are errors; the rest are warnings.
    pub open spec fn level(self) -> LogLevel {
        match self {
            CoreError::Jwt(_) => LogLevel::Warn,
            CoreError::Db(_) => LogLevel::Error,
            CoreError::Auth(e) => if e == AuthError::InvalidCredentials || e
                == AuthError::TokenExpired {
                LogLevel::Warn
            } else {
                LogLevel::Error
            },
            CoreError::Api(_) => LogLevel::Warn,
            CoreError::Validation(_) => LogLevel::Warn,
            CoreError::Internal { .. } => LogLevel::Error,
        }
    }

    /// What the log says of a failure of this origin.
    pub open spec fn note(self) -> Seq<char> {
        match self {
            CoreError::Jwt(_) => "JWT error occurred"@,
            CoreError::Db(_) => "Database error occurred"@,
            CoreError::Auth(e) => if e == AuthError::InvalidCredentials || e
                == AuthError::TokenExpired {
                "Authentication error"@
            } else {
                "Authentication error occurred"@
            },
            CoreError::Api(_) => "API error occurred"@,
            CoreError::Validation(_) => "Validation error occurred"@,
            CoreError::Internal { .. } => "Internal server error occurred"@,
        }
    }

    /// An internal failure with the given message, under a fresh trace id.
    pub fn internal(message: String) -> (error: Self)
        ensures
            error matches CoreError::Internal { message: m, trace_id: t } && m == message
                && t@.len() == ID_LEN,
    {
        CoreError::Internal { message, trace_id: fresh_id() }
    }

    /// The id under which the failure is traced: the one an internal failure
    /// carries, else a fresh one.
    pub fn trace_id(&self) -> (id: String)
        ensures
            match self {
                CoreError::Internal { trace_id, .. } => id == trace_id,
                _ => id@.len() == ID_LEN,
            },
    {
        match self {
            CoreError::Internal { trace_id, .. } => trace_id.clone(),
            _ => fresh_id(),
        }
    }

    /// The error's machine-readable code.
    pub fn error_code(&self) -> (code: String)
        ensures
            code@ == self.code(),
    {
        match self {
            CoreError::Jwt(e) => e.error_code().to_owned(),
            CoreError::Db(e) => e.error_code().to_owned(),
            CoreError::Auth(e) => e.error_code().to_owned(),
            CoreError::Api(e) => e.error_code().to_owned(),
            CoreError::Validation(_) => "VALIDATION_ERROR".to_owned(),
            CoreError::Internal { .. } => "INTERNAL_SERVER_ERROR".to_owned(),
        }
    }

    /// The error in words.
    pub fn message(&self) -> (text: String)
        ensures
            text@ == self.text(),
    {
        match self {
            CoreError::Jwt(e) => "JWT error: ".to_owned().concat(e.message()),
            CoreError::Db(e) => "Database error: ".to_owned().concat(e.message()),
            CoreError::Auth(e) => "Authentication error: ".to_owned().concat(e.message().as_str()),
            CoreError::Api(e) => "API error: ".to_owned().concat(e.message().as_str()),
            CoreError::Validation(_) => "Validator error: request fields are invalid".to_owned(),
            CoreError::Internal { message, .. } => "Internal server error: ".to_owned().concat(
                message.as_str(),
            ),
        }
    }

    /// What is to be written to the log about the failure, under the trace
    /// id `trace_id`.
    pub fn log_error(&self, trace_id: String) -> (record: LogRecord)
        ensures
            record.level == self.level(),
            record.note@ == self.note(),
            record.error@ == match self {
                CoreError::Jwt(e) => e.text(),
                CoreError::Db(e) => e.text(),
                CoreError::Auth(e) => e.text(),
                CoreError::Api(e) => e.text(),
                CoreError::Validation(_) => self.text(),
                CoreError::Internal { message, .. } => message@,
            },
            record.error_code@ == self.code(),
            record.trace_id == trace_id,
    {
        let error_code = self.error_code();
        match self {
            CoreError::Jwt(e) => LogRecord {
                level: LogLevel::Warn,
                note: "JWT error occurred",
                error: e.message().to_owned(),
                error_code,
                trace_id,
            },
            CoreError::Db(e) => LogRecord {
                level: LogLevel::Error,
                note: "Database error occurred",
                error: e.message().to_owned(),
                error_code,
                trace_id,
            },
            CoreError::Auth(e) => match e {
                AuthError::InvalidCredentials | AuthError::TokenExpired => LogRecord {
                    level: LogLevel::Warn,
                    note: "Authentication error",
                    error: e.message(),
                    error_code,
                    trace_id,
                },
                _ => LogRecord {
                    level: LogLevel::Error,
                    note: "Authentication error occurred",
                    error: e.message(),
                    error_code,
                    trace_id,
                },
            },
            CoreError::Api(e) => LogRecord {
                level: LogLevel::Warn,
                note: "API error occurred",
                error: e.message(),
                error_code,
                trace_id,
            },
            CoreError::Validation(_) => LogRecord {
                level: LogLevel::Warn,
                note: "Validation error occurred",
                error: self.message(),
                error_code,
                trace_id,
            },
            CoreError::Internal { message, .. } => LogRecord {
                level: LogLevel::Error,
                note: "Internal server error occurred",
                error: message.clone(),
                error_code,
                trace_id,
            },
        }
    }
}

} // verus!
