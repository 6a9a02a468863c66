//! The bodies of the requests and responses of registration, login and
//! password handling.

use crate::clock::{rfc3339, rfc3339_text};
use crate::models::user::User;
use vstd::prelude::*;
use vstd::string::*;

verus! {

/// The kind of token that a response hands out, as the `Authorization`
/// header names it.
pub const BEARER: &'static str = "Bearer";

/// The body of a registration.
#[derive(Debug, Clone)]
pub struct RegisterRequest {
    pub name: String,
    pub email: String,
    pub password: String,
    pub confirm_password: String,
}

/// The body of a login, with the device it comes from if the client says so.
#[derive(Debug, Clone)]
pub struct LoginRequest {
    pub email: String,
    pub password: String,
    pub device_info: Option<String>,
}

/// The body of a renewal: the refresh token.
#[derive(Debug, Clone)]
pub struct RefreshTokenRequest {
    pub refresh_token: String,
}

/// The body of an email confirmation: the token that was mailed.
#[derive(Debug, Clone)]
pub struct VerifyEmailRequest {
    pub token: String,
}

/// The body of a request for a password reset.
#[derive(Debug, Clone)]
pub struct ForgotPasswordRequest {
    pub email: String,
}

/// The body of a password reset: the token that was mailed and the new
/// password.
#[derive(Debug, Clone)]
pub struct ResetPasswordRequest {
    pub token: String,
    pub new_password: String,
    pub confirm_password: String,
}

/// The body of a password change.
#[derive(Debug, Clone)]
pub struct ChangePasswordRequest {
    pub current_password: String,
    pub new_password: String,
    pub confirm_password: String,
}

/// The body of a logout, with the refresh token of the session to end if the
/// client names one.
#[derive(Debug, Clone)]
pub struct LogoutRequest {
    pub refresh_token: Option<String>,
}

/// The response to a login: the account and its new tokens.
#[derive(Debug)]
pub struct LoginResponse {
    pub user: UserResponse,
    pub tokens: TokenResponse,
}

/// An account as a response shows it: without the password, with its times
/// in the form of RFC 3339.
#[derive(Debug)]
pub struct UserResponse {
    pub id: String,
    pub name: String,
    pub email: String,
    pub role: String,
    pub verified: bool,
    pub created_at: Option<String>,
    pub updated_at: Option<String>,
}

/// The tokens that a login or a renewal hands out, and for how many seconds
/// the access token lasts.
#[derive(Debug)]
pub struct TokenResponse {
    pub access_token: String,
    pub refresh_token: String,
    pub token_type: String,
    pub expires_in: i64,
}

/// The text of an optional second; a second that cannot be written is
/// left out.
pub open spec fn opt_time_text(at: Option<i64>) -> Option<Seq<char>> {
    match at {
        Some(secs) => rfc3339_text(secs as int),
        None => None,
    }
}

/// The text of an optional second.
fn opt_time(at: Option<i64>) -> (text: Option<String>)
    ensures
        match text {
            Some(t) => opt_time_text(at) == Some(t@),
            None => opt_time_text(at) is None,
        },
{
    match at {
        Some(secs) => rfc3339(secs),
        None => None,
    }
}

impl UserResponse {
    /// The account as a response shows it.
    pub fn from(user: User) -> (response: Self)
        ensures
            response.id == user.id,
            response.name == user.name,
            response.email == user.email,
            response.role@ == user.role.name(),
            response.verified == user.verified,
            match response.created_at {
                Some(t) => opt_time_text(user.created_at) == Some(t@),
                None => opt_time_text(user.created_at) is None,
            },
            match response.updated_at {
                Some(t) => opt_time_text(user.updated_at) == Some(t@),
                None => opt_time_text(user.updated_at) is None,
            },
    {
        UserResponse {
            id: user.id,
            name: user.name,
            email: user.email,
            role: user.role.to_str().to_owned(),
            verified: user.verified,
            created_at: opt_time(user.created_at),
            updated_at: opt_time(user.updated_at),
        }
    }
}

impl TokenResponse {
    /// The response that hands out a pair of bearer tokens.
    pub fn new(access_token: String, refresh_token: String, expires_in: i64) -> (response: Self)
        ensures
            response.access_token == access_token,
            response.refresh_token == refresh_token,
            response.token_type@ == BEARER@,
            response.expires_in == expires_in,
    {
        TokenResponse { access_token, refresh_token, token_type: BEARER.to_owned(), expires_in }
    }
}

} // verus!
