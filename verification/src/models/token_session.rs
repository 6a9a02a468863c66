//! The server-side record of one login.

use crate::clock::{is_timestamp, unix_now};
use crate::ids::{fresh_id, ID_LEN};
use crate::models::token_claims::{clone_opt, opt_text};
use vstd::prelude::*;

verus! {

/// The record that binds one login to the identifiers of its current access
/// token and refresh token. Times are seconds since the Unix epoch. A
/// session that is no longer active never becomes active again.
#[derive(Debug)]
pub struct TokenSession {
    pub id: String,
    pub user_id: String,
    pub access_token_jti: String,
    pub refresh_token_jti: String,
    pub created_at: i64,
    pub last_active_at: i64,
    pub is_active: bool,
    pub device_info: Option<String>,
    pub ip_address: Option<String>,
    pub location: Option<String>,
}

/// A session as a mathematical value.
pub struct SessionView {
    pub id: Seq<char>,
    pub user_id: Seq<char>,
    pub access_token_jti: Seq<char>,
    pub refresh_token_jti: Seq<char>,
    pub created_at: int,
    pub last_active_at: int,
    pub is_active: bool,
    pub device_info: Option<Seq<char>>,
    pub ip_address: Option<Seq<char>>,
    pub location: Option<Seq<char>>,
}

impl View for TokenSession {
    type V = SessionView;

    open spec fn view(&self) -> SessionView {
        SessionView {
            id: self.id@,
            user_id: self.user_id@,
            access_token_jti: self.access_token_jti@,
            refresh_token_jti: self.refresh_token_jti@,
            created_at: self.created_at as int,
            last_active_at: self.last_active_at as int,
            is_active: self.is_active,
            device_info: opt_text(self.device_info),
            ip_address: opt_text(self.ip_address),
            location: opt_text(self.location),
        }
    }
}

impl SessionView {
    /// A new, active session created at the second `now`, with nothing known
    /// of the device.
    pub open spec fn fresh(
        id: Seq<char>,
        user_id: Seq<char>,
        access_jti: Seq<char>,
        refresh_jti: Seq<char>,
        now: int,
    ) -> SessionView {
        SessionView {
            id,
            user_id,
            access_token_jti: access_jti,
            refresh_token_jti: refresh_jti,
            created_at: now,
            last_active_at: now,
            is_active: true,
            device_info: None,
            ip_address: None,
            location: None,
        }
    }
}

impl TokenSession {
    /// A new, active session for `user_id` with the given token identifiers,
    /// created at the second `now` under the identifier `id`.
    pub fn new_at(id: String, user_id: String, access_jti: String, refresh_jti: String, now: i64) -> (session:
        Self)
        ensures
            session@ == SessionView::fresh(id@, user_id@, access_jti@, refresh_jti@, now as int),
    {
        TokenSession {
            id,
            user_id,
            access_token_jti: access_jti,
            refresh_token_jti: refresh_jti,
            created_at: now,
            last_active_at: now,
            is_active: true,
            device_info: None,
            ip_address: None,
            location: None,
        }
    }

    /// A new, active session for `user_id` with the given token identifiers,
    /// under a fresh identifier and created at the clock's current second.
    pub fn new(user_id: String, access_jti: String, refresh_jti: String) -> (session: Self)
        ensures
            session@ == SessionView::fresh(
                session@.id,
                user_id@,
                access_jti@,
                refresh_jti@,
                session@.created_at,
            ),
            session@.id.len() == ID_LEN,
            is_timestamp(session@.created_at),
    {
        Self::new_at(fresh_id(), user_id, access_jti, refresh_jti, unix_now())
    }
}

impl Clone for TokenSession {
    fn clone(&self) -> (copy: Self)
        ensures
            copy@ == self@,
            copy == *self,
    {
        TokenSession {
            id: self.id.clone(),
            user_id: self.user_id.clone(),
            access_token_jti: self.access_token_jti.clone(),
            refresh_token_jti: self.refresh_token_jti.clone(),
            created_at: self.created_at,
            last_active_at: self.last_active_at,
            is_active: self.is_active,
            device_info: clone_opt(&self.device_info),
            ip_address: clone_opt(&self.ip_address),
            location: clone_opt(&self.location),
        }
    }
}

} // verus!
