//! Failures of authentication and authorization.

use crate::text::{decimal, decimal_text};
use vstd::prelude::*;
use vstd::string::*;

verus! {

/// Why a caller was not authenticated or not allowed.
#[derive(Debug, Clone, Copy, PartialEq, Eq, Structural)]
pub enum AuthError {
    InvalidCredentials,
    TokenExpired,
    TokenNotProvided,
    InvalidToken,
    EmailAlreadyExists,
    UserNoLongerExists,
    EmptyPassword,
    PasswordTooLong { max_length: usize },
    HashingError,
    InvalidHashFormat,
    PermissionDenied,
    NotAuthenticated,
}

impl AuthError {
    /// The error's machine-readable code.
    pub open spec fn code(self) -> Seq<char> {
        match self {
            AuthError::InvalidCredentials => "AUTH_INVALID_CREDENTIALS"@,
            AuthError::TokenExpired => "AUTH_TOKEN_EXPIRED"@,
            AuthError::TokenNotProvided => "AUTH_TOKEN_NOT_PROVIDED"@,
            AuthError::InvalidToken => "AUTH_INVALID_TOKEN"@,
            AuthError::EmailAlreadyExists => "AUTH_EMAIL_EXISTS"@,
            AuthError::UserNoLongerExists => "AUTH_USER_NOT_EXISTS"@,
            AuthError::EmptyPassword => "AUTH_EMPTY_PASSWORD"@,
            AuthError::PasswordTooLong { .. } => "AUTH_PASSWORD_TOO_LONG"@,
            AuthError::HashingError => "AUTH_HASHING_ERROR"@,
            AuthError::InvalidHashFormat => "AUTH_INVALID_HASH_FORMAT"@,
            AuthError::PermissionDenied => "AUTH_PERMISSION_DENIED"@,
            AuthError::NotAuthenticated => "AUTH_NOT_AUTHENTICATED"@,
        }
    }

    /// The error in words.
    pub open spec fn text(self) -> Seq<char> {
        match self {
            AuthError::InvalidCredentials => "Invalid credentials provided"@,
            AuthError::TokenExpired => "Access token has expired"@,
            AuthError::TokenNotProvided => "Authentication token not provided"@,
            AuthError::InvalidToken => "Authentication token is invalid or malformed"@,
            AuthError::EmailAlreadyExists => "User with this email already exists"@,
            AuthError::UserNoLongerExists => "User belonging to this token no longer exists"@,
            AuthError::EmptyPassword => "Password cannot be empty"@,
            AuthError::PasswordTooLong { max_length } => "Password must not be more than "@
                + decimal_text(max_length as nat) + " characters"@,
            AuthError::HashingError => "Error while hashing password"@,
            AuthError::InvalidHashFormat => "Invalid password hash format"@,
            AuthError::PermissionDenied => "You are not allowed to perform this action"@,
            AuthError::NotAuthenticated => "Authentication required. Please log in."@,
        }
    }

    /// The error in words.
    pub fn message(&self) -> (text: String)
        ensures
            text@ == self.text(),
    {
        match self {
            AuthError::InvalidCredentials => "Invalid credentials provided".to_owned(),
            AuthError::TokenExpired => "Access token has expired".to_owned(),
            AuthError::TokenNotProvided => "Authentication token not provided".to_owned(),
            AuthError::InvalidToken => "Authentication token is invalid or malformed".to_owned(),
            AuthError::EmailAlreadyExists => "User with this email already exists".to_owned(),
            AuthError::UserNoLongerExists => "User belonging to this token no longer exists".to_owned(),
            AuthError::EmptyPassword => "Password cannot be empty".to_owned(),
            AuthError::PasswordTooLong { max_length } => {
                let limit = decimal(*max_length as u64);
                "Password must not be more than ".to_owned().concat(limit.as_str()).concat(
                    " characters",
                )
            },
            AuthError::HashingError => "Error while hashing password".to_owned(),
            AuthError::InvalidHashFormat => "Invalid password hash format".to_owned(),
            AuthError::PermissionDenied => "You are not allowed to perform this action".to_owned(),
            AuthError::NotAuthenticated => "Authentication required. Please log in.".to_owned(),
        }
    }

    /// A password longer than `max_length`.
    pub fn password_too_long(max_length: usize) -> (error: Self)
        ensures
            error == (AuthError::PasswordTooLong { max_length }),
    {
        AuthError::PasswordTooLong { max_length }
    }

    /// The error's machine-readable code.
    pub fn error_code(&self) -> (code: &'static str)
        ensures
            code@ == self.code(),
    {
        match self {
            AuthError::InvalidCredentials => "AUTH_INVALID_CREDENTIALS",
            AuthError::TokenExpired => "AUTH_TOKEN_EXPIRED",
            AuthError::TokenNotProvided => "AUTH_TOKEN_NOT_PROVIDED",
            AuthError::InvalidToken => "AUTH_INVALID_TOKEN",
            AuthError::EmailAlreadyExists => "AUTH_EMAIL_EXISTS",
            AuthError::UserNoLongerExists => "AUTH_USER_NOT_EXISTS",
            AuthError::EmptyPassword => "AUTH_EMPTY_PASSWORD",
            AuthError::PasswordTooLong { .. } => "AUTH_PASSWORD_TOO_LONG",
            AuthError::HashingError => "AUTH_HASHING_ERROR",
            AuthError::InvalidHashFormat => "AUTH_INVALID_HASH_FORMAT",
            AuthError::PermissionDenied => "AUTH_PERMISSION_DENIED",
            AuthError::NotAuthenticated => "AUTH_NOT_AUTHENTICATED",
        }
    }
}

} // verus!
