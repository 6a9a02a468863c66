//! The stored record of a single token.

use crate::clock::{is_timestamp, unix_now};
use crate::ids::{fresh_id, ID_LEN};
use crate::json::{empty_object, json_of, Json};
use crate::models::token_status::TokenStatus;
use crate::models::token_type::TokenType;
use vstd::prelude::*;

verus! {

/// The record of one token: whose it is, what it is for, its state, and
/// when and from where it was used. Times are seconds since the Unix epoch.
#[derive(Debug)]
pub struct Token {
    pub id: String,
    pub user_id: String,
    pub token_type: TokenType,
    pub status: TokenStatus,
    pub token_hash: String,
    pub jti: Option<String>,
    pub created_at: i64,
    pub expires_at: i64,
    pub last_used_at: Option<i64>,
    pub revoked_at: Option<i64>,
    pub created_ip: Option<String>,
    pub last_used_ip: Option<String>,
    pub user_agent: Option<String>,
    /// Whatever else is recorded of the token: a JSON object.
    pub metadata: serde_json::Value,
}

impl Token {
    /// Whether the token has ended at the second `now`: it has, from the
    /// second of its end on.
    pub open spec fn expired_at(&self, now: int) -> bool {
        self.expires_at <= now
    }

    /// Whether the token may be used at the second `now`: it is active and
    /// has not ended.
    pub open spec fn valid_at(&self, now: int) -> bool {
        self.status == TokenStatus::Active && !self.expired_at(now)
    }

    /// A new, active record, made at the clock's current second under a
    /// fresh id, never used so far.
    pub fn new(
        user_id: String,
        token_type: TokenType,
        token_hash: String,
        expires_at: i64,
        jti: Option<String>,
    ) -> (token: Self)
        ensures
            token.user_id == user_id,
            token.token_type == token_type,
            token.status == TokenStatus::Active,
            token.token_hash == token_hash,
            token.jti == jti,
            token.expires_at == expires_at,
            token.id@.len() == ID_LEN,
            is_timestamp(token.created_at as int),
            token.last_used_at is None,
            token.revoked_at is None,
            token.created_ip is None,
            token.last_used_ip is None,
            token.user_agent is None,
            json_of(token.metadata) == Json::Object(Map::empty()),
    {
        Token {
            id: fresh_id(),
            user_id,
            token_type,
            status: TokenStatus::Active,
            token_hash,
            jti,
            created_at: unix_now(),
            expires_at,
            last_used_at: None,
            revoked_at: None,
            created_ip: None,
            last_used_ip: None,
            user_agent: None,
            metadata: empty_object(),
        }
    }

    /// Whether the token has ended at the second `now`.
    pub fn is_expired_at(&self, now: i64) -> (expired: bool)
        ensures
            expired == self.expired_at(now as int),
    {
        self.expires_at <= now
    }

    /// Whether the token has ended by the clock's current second, whichever
    /// second that is.
    pub fn is_expired(&self) -> (expired: bool)
        ensures
            exists|now: int| is_timestamp(now) && expired == #[trigger] self.expired_at(now),
    {
        let now = unix_now();
        let expired = self.is_expired_at(now);
        assert(expired == self.expired_at(now as int));
        expired
    }

    /// Whether the token may be used at the second `now`.
    pub fn is_valid_at(&self, now: i64) -> (valid: bool)
        ensures
            valid == self.valid_at(now as int),
    {
        match self.status {
            TokenStatus::Active => !self.is_expired_at(now),
            _ => false,
        }
    }

    /// Whether the token may be used at the clock's current second,
    /// whichever second that is.
    pub fn is_valid(&self) -> (valid: bool)
        ensures
            exists|now: int| is_timestamp(now) && valid == #[trigger] self.valid_at(now),
    {
        let now = unix_now();
        let valid = self.is_valid_at(now);
        assert(valid == self.valid_at(now as int));
        valid
    }

    /// Revokes the token at the second `now`.
    pub fn revoke_at(&mut self, now: i64)
        ensures
            *final(self) == (Token {
                status: TokenStatus::Revoked,
                revoked_at: Some(now),
                ..*old(self)
            }),
    {
        self.status = TokenStatus::Revoked;
        self.revoked_at = Some(now);
    }

    /// Revokes the token at the clock's current second.
    pub fn revoke(&mut self)
        ensures
            final(self).revoked_at matches Some(now) && is_timestamp(now as int),
            *final(self) == (Token {
                status: TokenStatus::Revoked,
                revoked_at: final(self).revoked_at,
                ..*old(self)
            }),
    {
        self.revoke_at(unix_now());
    }

    /// Records that the token has served its single use.
    pub fn mark_as_used(&mut self)
        ensures
            *final(self) == (Token { status: TokenStatus::Used, ..*old(self) }),
    {
        self.status = TokenStatus::Used;
    }

    /// Records a use of the token at the second `now`, and from which
    /// address if that is known.
    pub fn update_last_used_at(&mut self, ip: Option<String>, now: i64)
        ensures
            *final(self) == (Token {
                last_used_at: Some(now),
                last_used_ip: if ip is Some {
                    ip
                } else {
                    old(self).last_used_ip
                },
                ..*old(self)
            }),
    {
        self.last_used_at = Some(now);
        if let Some(ip) = ip {
            self.last_used_ip = Some(ip);
        }
    }

    /// Records a use of the token at the clock's current second, and from
    /// which address if that is known.
    pub fn update_last_used(&mut self, ip: Option<String>)
        ensures
            final(self).last_used_at matches Some(now) && is_timestamp(now as int),
            *final(self) == (Token {
                last_used_at: final(self).last_used_at,
                last_used_ip: if ip is Some {
                    ip
                } else {
                    old(self).last_used_ip
                },
                ..*old(self)
            }),
    {
        self.update_last_used_at(ip, unix_now());
    }
}

} // verus!
