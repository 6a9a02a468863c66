//! The signing secrets and lifetimes of tokens.

use crate::models::token_type::TokenType;
use crate::text::{parse_i64, signed_number};
use vstd::prelude::*;

verus! {

/// The longest lifetime that a token can be given, in seconds.
pub const MAX_EXPIRES_IN: i64 = 9_223_372_036_854_775;

/// How long a token that confirms an email address lasts: a day, in seconds.
pub const EMAIL_VERIFICATION_EXPIRES_IN: i64 = 86_400;

/// How long a token that allows a password reset lasts: an hour, in seconds.
pub const PASSWORD_RESET_EXPIRES_IN: i64 = 3_600;

/// One signing secret for each purpose of a token, and the lifetimes of
/// access and refresh tokens in seconds.
#[derive(Debug)]
pub struct TokenConfig {
    pub jwt_access_secret: String,
    pub jwt_refresh_secret: String,
    pub email_verification_secret: String,
    pub password_reset_secret: String,
    pub access_token_expires_in: i64,
    pub refresh_token_expires_in: i64,
    pub token_cleanup_interval: i64,
}

impl TokenConfig {
    /// Both lifetimes are positive and no longer than the longest lifetime.
    pub open spec fn well_formed(&self) -> bool {
        &&& 0 < self.access_token_expires_in <= MAX_EXPIRES_IN
        &&& 0 < self.refresh_token_expires_in <= MAX_EXPIRES_IN
    }

    /// The secret that signs tokens of the purpose `t`, if the purpose has
    /// one.
    pub open spec fn secret_of(&self, t: TokenType) -> Option<Seq<char>> {
        match t {
            TokenType::Access => Some(self.jwt_access_secret@),
            TokenType::Refresh => Some(self.jwt_refresh_secret@),
            TokenType::EmailVerification => Some(self.email_verification_secret@),
            TokenType::PasswordReset => Some(self.password_reset_secret@),
            TokenType::Invitation => None,
        }
    }

    /// The lifetime of tokens of the purpose `t` in seconds, if the purpose
    /// has one.
    pub open spec fn lifetime_of(&self, t: TokenType) -> Option<int> {
        match t {
            TokenType::Access => Some(self.access_token_expires_in as int),
            TokenType::Refresh => Some(self.refresh_token_expires_in as int),
            TokenType::EmailVerification => Some(EMAIL_VERIFICATION_EXPIRES_IN as int),
            TokenType::PasswordReset => Some(PASSWORD_RESET_EXPIRES_IN as int),
            TokenType::Invitation => None,
        }
    }

    /// A configuration with the given secrets and lifetimes.
    pub fn new(
        jwt_access_secret: String,
        jwt_refresh_secret: String,
        email_verification_secret: String,
        password_reset_secret: String,
        access_token_expires_in: i64,
        refresh_token_expires_in: i64,
        token_cleanup_interval: i64,
    ) -> (config: Self)
        ensures
            config == (TokenConfig {
                jwt_access_secret,
                jwt_refresh_secret,
                email_verification_secret,
                password_reset_secret,
                access_token_expires_in,
                refresh_token_expires_in,
                token_cleanup_interval,
            }),
    {
        TokenConfig {
            jwt_access_secret,
            jwt_refresh_secret,
            email_verification_secret,
            password_reset_secret,
            access_token_expires_in,
            refresh_token_expires_in,
            token_cleanup_interval,
        }
    }

    /// The number of seconds that a text writes, if it writes one that fits
    /// 64 bits.
    pub open spec fn seconds_of(text: Seq<char>) -> Option<i64> {
        match signed_number(text) {
            Some(n) => if i64::MIN <= n <= i64::MAX {
                Some(n as i64)
            } else {
                None
            },
            None => None,
        }
    }

    /// The configuration with the given secrets and with the lifetimes and
    /// the interval that three texts write, each a number of seconds. A
    /// text that writes no such number gives no configuration.
    pub fn from_text(
        jwt_access_secret: String,
        jwt_refresh_secret: String,
        email_verification_secret: String,
        password_reset_secret: String,
        access_token_expires_in: &str,
        refresh_token_expires_in: &str,
        token_cleanup_interval: &str,
    ) -> (config: Option<Self>)
        ensures
            config == match (
                Self::seconds_of(access_token_expires_in@),
                Self::seconds_of(refresh_token_expires_in@),
                Self::seconds_of(token_cleanup_interval@),
            ) {
                (Some(access), Some(refresh), Some(cleanup)) => Some(
                    TokenConfig {
                        jwt_access_secret,
                        jwt_refresh_secret,
                        email_verification_secret,
                        password_reset_secret,
                        access_token_expires_in: access,
                        refresh_token_expires_in: refresh,
                        token_cleanup_interval: cleanup,
                    },
                ),
                _ => None,
            },
    {
        let access = match parse_i64(access_token_expires_in) {
            Some(n) => n,
            None => {
                return None;
            },
        };
        let refresh = match parse_i64(refresh_token_expires_in) {
            Some(n) => n,
            None => {
                return None;
            },
        };
        let cleanup = match parse_i64(token_cleanup_interval) {
            Some(n) => n,
            None => {
                return None;
            },
        };
        Some(
            TokenConfig {
                jwt_access_secret,
                jwt_refresh_secret,
                email_verification_secret,
                password_reset_secret,
                access_token_expires_in: access,
                refresh_token_expires_in: refresh,
                token_cleanup_interval: cleanup,
            },
        )
    }

    /// Whether both lifetimes are positive and no longer than the longest
    /// lifetime.
    pub fn is_well_formed(&self) -> (yes: bool)
        ensures
            yes == self.well_formed(),
    {
        0 < self.access_token_expires_in && self.access_token_expires_in <= MAX_EXPIRES_IN && 0
            < self.refresh_token_expires_in && self.refresh_token_expires_in <= MAX_EXPIRES_IN
    }

    /// The secret that signs tokens of the purpose `t`, if the purpose has
    /// one.
    pub fn secret_for(&self, t: TokenType) -> (secret: Option<&str>)
        ensures
            match secret {
                Some(s) => self.secret_of(t) == Some(s@),
                None => self.secret_of(t) is None,
            },
    {
        match t {
            TokenType::Access => Some(self.jwt_access_secret.as_str()),
            TokenType::Refresh => Some(self.jwt_refresh_secret.as_str()),
            TokenType::EmailVerification => Some(self.email_verification_secret.as_str()),
            TokenType::PasswordReset => Some(self.password_reset_secret.as_str()),
            TokenType::Invitation => None,
        }
    }
}

impl Clone for TokenConfig {
    fn clone(&self) -> (copy: Self)
        ensures
            copy == *self,
    {
        TokenConfig {
            jwt_access_secret: self.jwt_access_secret.clone(),
            jwt_refresh_secret: self.jwt_refresh_secret.clone(),
            email_verification_secret: self.email_verification_secret.clone(),
            password_reset_secret: self.password_reset_secret.clone(),
            access_token_expires_in: self.access_token_expires_in,
            refresh_token_expires_in: self.refresh_token_expires_in,
            token_cleanup_interval: self.token_cleanup_interval,
        }
    }
}

} // verus!
