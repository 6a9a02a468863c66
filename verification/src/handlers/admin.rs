//! What the requests of administrators do.

use crate::clock::is_timestamp;
use crate::database::token::{active_of, revoke_user, sweep, views, RETENTION_SECS};
use crate::database::user::{find_user, has_user_id};
use crate::errors::auth::AuthError;
use crate::errors::db::DatabaseError;
use crate::errors::error::CoreError;
use crate::models::role::Role;
use crate::models::token_claims::{ClaimsView, TokenClaims};
use crate::models::token_session::TokenSession;
use crate::models::user::User;
use crate::state::AppState;
use crate::text::{decimal, decimal_text};
use vstd::prelude::*;
use vstd::string::*;

verus! {

/// The page that a list is asked for without naming one.
pub const DEFAULT_PAGE: u32 = 1;

/// The number of entries on a page that is asked for without naming one.
pub const DEFAULT_LIMIT: u32 = 10;

/// What is said of an account that does not exist.
pub const USER_NOT_FOUND: &'static str = "User not found";

/// How a list of users is asked for.
#[derive(Debug, Clone)]
pub struct UserListQuery {
    pub page: Option<u32>,
    pub limit: Option<u32>,
    pub search: Option<String>,
    pub role: Option<String>,
    pub verified: Option<bool>,
}

/// An account as an administrator sees it. Times are in seconds since the
/// Unix epoch.
#[derive(Debug)]
pub struct AdminUserInfo {
    pub id: String,
    pub name: String,
    pub email: String,
    pub role: String,
    pub verified: bool,
    pub created_at: i64,
    pub updated_at: Option<i64>,
    pub active_sessions: usize,
}

/// Counts over the whole system.
#[derive(Debug, Clone, Copy, PartialEq, Eq, Structural)]
pub struct SystemStats {
    pub total_users: u64,
    pub verified_users: u64,
    pub active_sessions: u64,
    pub admin_users: u64,
    pub recent_registrations: u64,
}

/// Where a page of a list stands in the whole list.
#[derive(Debug, Clone, Copy, PartialEq, Eq, Structural)]
pub struct Pagination {
    pub page: u32,
    pub limit: u32,
    pub total: u64,
    pub pages: u64,
}

/// One page of the list of users.
#[derive(Debug)]
pub struct UserPage {
    pub users: Vec<AdminUserInfo>,
    pub pagination: Pagination,
}

/// An account with its active sessions.
#[derive(Debug)]
pub struct UserDetails {
    pub user: AdminUserInfo,
    pub sessions: Vec<TokenSession>,
}

/// A response that only says what happened.
#[derive(Debug)]
pub struct AdminMessage {
    pub message: String,
}

/// The response to a sweep of old sessions.
#[derive(Debug)]
pub struct CleanupReport {
    pub message: String,
    pub cleaned_count: usize,
}

impl AdminUserInfo {
    /// The account as an administrator sees it, with the number of its
    /// active sessions. A time of creation that is not known counts as
    /// zero.
    pub fn of(user: User, active_sessions: usize) -> (info: Self)
        ensures
            info.id == user.id,
            info.name == user.name,
            info.email == user.email,
            info.role@ == user.role.name(),
            info.verified == user.verified,
            info.created_at == match user.created_at {
                Some(at) => at,
                None => 0i64,
            },
            info.updated_at == user.updated_at,
            info.active_sessions == active_sessions,
    {
        AdminUserInfo {
            id: user.id,
            name: user.name,
            email: user.email,
            role: user.role.to_str().to_owned(),
            verified: user.verified,
            created_at: match user.created_at {
                Some(at) => at,
                None => 0,
            },
            updated_at: user.updated_at,
            active_sessions,
        }
    }
}

/// The account that the store found, for an administrator who asked for
/// it; an account that does not exist is not found.
pub fn require_user(found: Option<User>) -> (user: Result<User, CoreError>)
    ensures
        match found {
            Some(account) => user == Ok::<User, CoreError>(account),
            None => user matches Err(CoreError::Db(DatabaseError::NotFound(m))) && m@
                == USER_NOT_FOUND@,
        },
{
    match found {
        Some(user) => Ok(user),
        None => Err(CoreError::Db(DatabaseError::NotFound(USER_NOT_FOUND.to_owned()))),
    }
}

/// The role and the user that a change of role names. Without a user id,
/// without a role, or with a role that does not exist the request is
/// refused as invalid.
pub fn role_change<'a>(user_id: Option<&'a str>, role: Option<&str>) -> (change: Result<
    (&'a str, Role),
    CoreError,
>)
    ensures
        match change {
            Ok(pair) => user_id == Some(pair.0) && (role matches Some(r) && Role::named(r@)
                == Some(pair.1)),
            Err(e) => e == CoreError::Auth(AuthError::InvalidCredentials) && (user_id is None
                || role is None || Role::named(role->Some_0@) is None),
        },
{
    let user_id = match user_id {
        Some(id) => id,
        None => {
            return Err(CoreError::Auth(AuthError::InvalidCredentials));
        },
    };
    let role = match role {
        Some(role) => role,
        None => {
            return Err(CoreError::Auth(AuthError::InvalidCredentials));
        },
    };
    match Role::from_str(role) {
        Some(role) => Ok((user_id, role)),
        None => Err(CoreError::Auth(AuthError::InvalidCredentials)),
    }
}

/// Whether the claims are an administrator's: their role must say so.
pub open spec fn is_admin(claims: ClaimsView) -> bool {
    claims.role == Some(Role::Admin)
}

/// Lets only an administrator pass; anyone else is denied.
pub fn require_admin(claims: &TokenClaims) -> (passed: Result<(), CoreError>)
    ensures
        passed == if is_admin(claims@) {
            Ok::<(), CoreError>(())
        } else {
            Err::<(), CoreError>(CoreError::Auth(AuthError::PermissionDenied))
        },
{
    match claims.role {
        Some(Role::Admin) => Ok(()),
        _ => Err(CoreError::Auth(AuthError::PermissionDenied)),
    }
}

/// The counts over the whole system, for an administrator. No counts are
/// kept: every count is zero.
pub fn get_system_stats(claims: &TokenClaims) -> (done: Result<SystemStats, CoreError>)
    ensures
        done == if is_admin(claims@) {
            Ok::<SystemStats, CoreError>(
                SystemStats {
                    total_users: 0,
                    verified_users: 0,
                    active_sessions: 0,
                    admin_users: 0,
                    recent_registrations: 0,
                },
            )
        } else {
            Err::<SystemStats, CoreError>(CoreError::Auth(AuthError::PermissionDenied))
        },
{
    match require_admin(claims) {
        Ok(()) => {},
        Err(e) => {
            return Err(e);
        },
    }
    Ok(
        SystemStats {
            total_users: 0,
            verified_users: 0,
            active_sessions: 0,
            admin_users: 0,
            recent_registrations: 0,
        },
    )
}

/// A page of the list of users, for an administrator. Without a page the
/// first is meant, without a limit ten entries. No list of users is kept:
/// the page is empty and the list has no pages.
pub fn list_users(claims: &TokenClaims, query: UserListQuery) -> (done: Result<UserPage, CoreError>)
    ensures
        match done {
            Ok(page) => {
                &&& is_admin(claims@)
                &&& page.users@.len() == 0
                &&& page.pagination == (Pagination {
                    page: match query.page {
                        Some(p) => p,
                        None => DEFAULT_PAGE,
                    },
                    limit: match query.limit {
                        Some(l) => l,
                        None => DEFAULT_LIMIT,
                    },
                    total: 0,
                    pages: 0,
                })
            },
            Err(e) => !is_admin(claims@) && e == CoreError::Auth(AuthError::PermissionDenied),
        },
{
    match require_admin(claims) {
        Ok(()) => {},
        Err(e) => {
            return Err(e);
        },
    }
    let page = match query.page {
        Some(p) => p,
        None => DEFAULT_PAGE,
    };
    let limit = match query.limit {
        Some(l) => l,
        None => DEFAULT_LIMIT,
    };
    Ok(UserPage { users: Vec::new(), pagination: Pagination { page, limit, total: 0, pages: 0 } })
}

/// An account with its active sessions, for an administrator. Without a
/// user id the request is refused as invalid; an account that does not
/// exist is not found.
pub fn get_user_by_id(state: &AppState, claims: &TokenClaims, user_id: Option<&str>) -> (done:
    Result<UserDetails, CoreError>)
    ensures
        match done {
            Ok(details) => {
                &&& is_admin(claims@)
                &&& user_id matches Some(id) && details.user.id@ == id@
                &&& find_user(state.user_service.user_repo@, false, details.user.id@) matches Some(
                    user,
                ) && {
                    &&& user.name == details.user.name@
                    &&& user.email == details.user.email@
                    &&& user.role.name() == details.user.role@
                    &&& user.verified == details.user.verified
                    &&& user.updated_at == details.user.updated_at
                    &&& details.user.created_at == match user.created_at {
                        Some(at) => at,
                        None => 0i64,
                    }
                }
                &&& views(details.sessions@) == active_of(
                    state.token_service.token_repo@,
                    details.user.id@,
                )
                &&& details.user.active_sessions == details.sessions@.len()
            },
            Err(e) => if !is_admin(claims@) {
                e == CoreError::Auth(AuthError::PermissionDenied)
            } else if user_id is None {
                e == CoreError::Auth(AuthError::InvalidCredentials)
            } else {
                !has_user_id(state.user_service.user_repo@, user_id->Some_0@) && (
                e matches CoreError::Db(DatabaseError::NotFound(m)) && m@ == USER_NOT_FOUND@)
            },
        },
{
    match require_admin(claims) {
        Ok(()) => {},
        Err(e) => {
            return Err(e);
        },
    }
    let user_id = match user_id {
        Some(id) => id,
        None => {
            return Err(CoreError::Auth(AuthError::InvalidCredentials));
        },
    };
    let found = match state.user_service.find_by_id(user_id.to_owned()) {
        Ok(found) => found,
        Err(e) => {
            return Err(e);
        },
    };
    let user = match require_user(found) {
        Ok(user) => user,
        Err(e) => {
            return Err(e);
        },
    };
    let sessions = match state.token_service.get_user_active_sessions(user.id.clone()) {
        Ok(sessions) => sessions,
        Err(e) => {
            return Err(e);
        },
    };
    let info = AdminUserInfo::of(user, sessions.len());
    Ok(UserDetails { user: info, sessions })
}

/// Revokes every session of a user, for an administrator. Without a user
/// id the request is refused as invalid. A refusal changes nothing.
pub fn admin_revoke_user_sessions(state: &mut AppState, claims: &TokenClaims, user_id: Option<&str>) -> (done:
    Result<AdminMessage, CoreError>)
    requires
        old(state).token_service.token_repo.well_formed(),
    ensures
        final(state).token_service.token_repo.well_formed(),
        final(state).token_service.config == old(state).token_service.config,
        final(state).user_service == old(state).user_service,
        match done {
            Ok(reply) => {
                &&& is_admin(claims@)
                &&& user_id matches Some(id) && reply.message@ == "All sessions for user "@ + id@
                    + " have been revoked"@ && final(state).token_service.token_repo@
                    == revoke_user(old(state).token_service.token_repo@, id@)
            },
            Err(e) => {
                &&& final(state).token_service.token_repo@ == old(state).token_service.token_repo@
                &&& if !is_admin(claims@) {
                    e == CoreError::Auth(AuthError::PermissionDenied)
                } else {
                    user_id is None && e == CoreError::Auth(AuthError::InvalidCredentials)
                }
            },
        },
{
    match require_admin(claims) {
        Ok(()) => {},
        Err(e) => {
            return Err(e);
        },
    }
    let user_id = match user_id {
        Some(id) => id,
        None => {
            return Err(CoreError::Auth(AuthError::InvalidCredentials));
        },
    };
    let _ = state.token_service.revoke_all_user_sessions(user_id.to_owned());
    Ok(
        AdminMessage {
            message: "All sessions for user ".to_owned().concat(user_id).concat(
                " have been revoked",
            ),
        },
    )
}

/// Gives a user another role, for an administrator, and revokes every
/// session of the user, so that no token with the former role stays in use.
/// Without a user id, without a role, or with a role that does not exist
/// the request is refused as invalid. A refusal changes nothing.
pub fn update_user_role(
    state: &mut AppState,
    claims: &TokenClaims,
    user_id: Option<&str>,
    role: Option<&str>,
) -> (done: Result<AdminMessage, CoreError>)
    requires
        old(state).token_service.token_repo.well_formed(),
    ensures
        final(state).token_service.token_repo.well_formed(),
        final(state).token_service.config == old(state).token_service.config,
        final(state).user_service == old(state).user_service,
        match done {
            Ok(reply) => {
                &&& is_admin(claims@)
                &&& user_id matches Some(id) && role matches Some(role) && Role::named(role@) is Some
                    && reply.message@ == "User role updated to "@ + role@
                    + ". User sessions have been revoked."@ && final(state).token_service.token_repo@ == revoke_user(
                    old(state).token_service.token_repo@,
                    id@,
                )
            },
            Err(e) => {
                &&& final(state).token_service.token_repo@ == old(state).token_service.token_repo@
                &&& if !is_admin(claims@) {
                    e == CoreError::Auth(AuthError::PermissionDenied)
                } else {
                    e == CoreError::Auth(AuthError::InvalidCredentials) && (user_id is None
                        || role is None || Role::named(role->Some_0@) is None)
                }
            },
        },
{
    match require_admin(claims) {
        Ok(()) => {},
        Err(e) => {
            return Err(e);
        },
    }
    let (user_id, new_role) = match role_change(user_id, role) {
        Ok(change) => change,
        Err(e) => {
            return Err(e);
        },
    };
    proof {
        Role::lemma_named_is_written_so(role->Some_0@);
    }
    let _ = state.token_service.revoke_all_user_sessions(user_id.to_owned());
    Ok(
        AdminMessage {
            message: "User role updated to ".to_owned().concat(new_role.to_str()).concat(
                ". User sessions have been revoked.",
            ),
        },
    )
}

/// Sweeps the sessions that are older than thirty days, for an
/// administrator, and reports how many were deleted.
pub fn cleanup_expired_sessions(state: &mut AppState, claims: &TokenClaims) -> (done: Result<
    CleanupReport,
    CoreError,
>)
    requires
        old(state).token_service.token_repo.well_formed(),
    ensures
        final(state).token_service.token_repo.well_formed(),
        final(state).token_service.config == old(state).token_service.config,
        final(state).user_service == old(state).user_service,
        match done {
            Ok(report) => {
                &&& is_admin(claims@)
                &&& report.cleaned_count == old(state).token_service.token_repo@.len() - final(state).token_service.token_repo@.len()
                &&& report.message@ == "Cleaned up "@ + decimal_text(report.cleaned_count as nat)
                    + " expired sessions"@
                &&& exists|now: int|
                    is_timestamp(now) && final(state).token_service.token_repo@ == #[trigger] sweep(
                        old(state).token_service.token_repo@,
                        now - RETENTION_SECS,
                    )
            },
            Err(e) => {
                &&& !is_admin(claims@)
                &&& e == CoreError::Auth(AuthError::PermissionDenied)
                &&& final(state).token_service.token_repo@ == old(state).token_service.token_repo@
            },
        },
{
    match require_admin(claims) {
        Ok(()) => {},
        Err(e) => {
            return Err(e);
        },
    }
    let cleaned_count = match state.token_service.cleanup_expired_sessions() {
        Ok(n) => n,
        Err(e) => {
            return Err(e);
        },
    };
    Ok(
        CleanupReport {
            message: "Cleaned up ".to_owned().concat(decimal(cleaned_count as u64).as_str()).concat(
                " expired sessions",
            ),
            cleaned_count,
        },
    )
}

} // verus!
