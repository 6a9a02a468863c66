//! What the requests of registration, login, sessions and passwords do.

use crate::clock::{is_timestamp, unix_now};
use crate::database::token::{active_of, lookup, revoke, revoke_user, views, SessionKey};
use crate::config::token::EMAIL_VERIFICATION_EXPIRES_IN;
use crate::database::user::{find_user, has_email, has_user_id};
use crate::dtos::auth::{
    ChangePasswordRequest, ForgotPasswordRequest, LoginRequest, LoginResponse, LogoutRequest,
    RefreshTokenRequest, RegisterRequest, ResetPasswordRequest, TokenResponse, UserResponse,
    BEARER,
};
use crate::dtos::user::SessionInfo;
use crate::errors::auth::AuthError;
use crate::errors::db::DatabaseError;
use crate::errors::error::CoreError;
use crate::models::token_claims::{
    clone_opt, default_scope_texts, opt_text, ClaimsView, TokenClaims,
};
use crate::models::token_session::{SessionView, TokenSession};
use crate::models::token_type::TokenType;
use crate::models::user::{User, UserView};
use crate::services::token::{
    fresh_id_may_be_taken, minted_token, refresh_outcome, session_opened, verify_for, TokenService,
};
use crate::models::role::Role;
use crate::services::user::{
    bcrypt_verified, email_confirmed, fresh_id_may_be_taken as account_id_may_be_taken,
    input_fault, login_outcome, owner_fault, password_fault, password_replaced,
};
use crate::state::AppState;
use crate::text::str_eq;
use vstd::prelude::*;
use vstd::string::*;

verus! {

/// The HTTP status of a response that reports a new account.
pub const CREATED: u16 = 201;

/// The HTTP status of a response that reports success.
pub const OK: u16 = 200;

/// What the responses say.
pub const LOGGED_OUT: &'static str = "Successfully logged out";

pub const PASSWORD_CHANGED: &'static str = "Password changed successfully. Please log in again.";

pub const RESET_LINK_SENT: &'static str =
    "If the email exists, a password reset link has been sent.";

pub const PASSWORD_RESET: &'static str =
    "Password reset successfully. Please log in with your new password.";

pub const EMAIL_VERIFIED: &'static str = "Email verified successfully.";

pub const ALL_SESSIONS_REVOKED: &'static str = "All sessions have been revoked successfully.";

pub const SESSION_REVOKED: &'static str = "Session revoked successfully.";

pub const SESSION_NOT_FOUND: &'static str = "Session not found";

pub const ALREADY_VERIFIED: &'static str = "Email is already verified.";

pub const VERIFICATION_SENT: &'static str = "Verification email has been sent.";

/// An account as the responses of registration and login show it. The time
/// of creation is in seconds since the Unix epoch, zero where it is not
/// known.
#[derive(Debug)]
pub struct UserInfo {
    pub id: String,
    pub email: String,
    pub name: String,
    pub role: String,
    pub created_at: i64,
}

/// A response that only says what happened.
#[derive(Debug)]
pub struct MessageResponse {
    pub message: String,
}

/// The response to a logout.
#[derive(Debug)]
pub struct LogoutResponse {
    pub message: String,
}

/// The response to a renewal: the new tokens.
#[derive(Debug)]
pub struct RefreshTokenResponse {
    pub access_token: String,
    pub refresh_token: String,
    pub token_type: String,
    pub expires_in: i64,
}

/// The active sessions of a user, and how many they are.
#[derive(Debug)]
pub struct SessionList {
    pub sessions: Vec<SessionInfo>,
    pub total: usize,
}

/// A response whose answer is also to be sent to the user by mail.
#[derive(Debug)]
pub struct MailedResponse {
    pub message: String,
    /// The address to write to and the token to send, where there is
    /// something to send.
    pub mail: Option<(String, String)>,
}

/// A response that says `text`.
fn say(text: &str) -> (response: MessageResponse)
    ensures
        response.message@ == text@,
{
    MessageResponse { message: text.to_owned() }
}

impl UserInfo {
    /// The account as a response shows it.
    pub fn of(user: &User) -> (info: Self)
        ensures
            info.id@ == user@.id,
            info.email@ == user@.email,
            info.name@ == user@.name,
            info.role@ == user@.role.name(),
            info.created_at == match user@.created_at {
                Some(at) => at,
                None => 0i64,
            },
    {
        UserInfo {
            id: user.id.clone(),
            email: user.email.clone(),
            name: user.name.clone(),
            role: user.role.to_str().to_owned(),
            created_at: match user.created_at {
                Some(at) => at,
                None => 0,
            },
        }
    }
}

/// A session as its user sees it; `current` is the identifier of the access
/// token that asks.
pub open spec fn session_info(session: SessionView, current: Option<Seq<char>>) -> SessionInfoView {
    SessionInfoView {
        id: session.id,
        device_info: session.device_info,
        ip_address: session.ip_address,
        location: session.location,
        created_at: session.created_at,
        last_active_at: session.last_active_at,
        is_current: current == Some(session.access_token_jti),
    }
}

/// A session as its user sees it, as a mathematical value.
pub struct SessionInfoView {
    pub id: Seq<char>,
    pub device_info: Option<Seq<char>>,
    pub ip_address: Option<Seq<char>>,
    pub location: Option<Seq<char>>,
    pub created_at: int,
    pub last_active_at: int,
    pub is_current: bool,
}

/// The view of a session as its user sees it.
pub open spec fn info_view(info: SessionInfo) -> SessionInfoView {
    SessionInfoView {
        id: info.id@,
        device_info: opt_text(info.device_info),
        ip_address: opt_text(info.ip_address),
        location: opt_text(info.location),
        created_at: info.created_at as int,
        last_active_at: info.last_active_at as int,
        is_current: info.is_current,
    }
}

/// Claims that have not ended at the second `now`; claims that have are
/// refused as expired.
pub fn require_unexpired(claims: TokenClaims, now: i64) -> (kept: Result<TokenClaims, CoreError>)
    ensures
        kept == if claims@.expired_at(now as int) {
            Err::<TokenClaims, CoreError>(CoreError::Auth(AuthError::TokenExpired))
        } else {
            Ok::<TokenClaims, CoreError>(claims)
        },
{
    if claims.is_expired_at(now) {
        Err(CoreError::Auth(AuthError::TokenExpired))
    } else {
        Ok(claims)
    }
}

/// The session that the store found, if the user that asks may revoke it:
/// a session that does not exist is not found, and the session of another
/// user may not be touched.
pub fn require_own_session(claims: &TokenClaims, found: Option<TokenSession>) -> (owned: Result<
    TokenSession,
    CoreError,
>)
    ensures
        match found {
            Some(session) => if session@.user_id == claims@.sub {
                owned == Ok::<TokenSession, CoreError>(session)
            } else {
                owned == Err::<TokenSession, CoreError>(CoreError::Auth(AuthError::PermissionDenied))
            },
            None => owned matches Err(CoreError::Db(DatabaseError::NotFound(m))) && m@
                == SESSION_NOT_FOUND@,
        },
{
    match found {
        Some(session) => {
            if str_eq(session.user_id.as_str(), claims.sub.as_str()) {
                Ok(session)
            } else {
                Err(CoreError::Auth(AuthError::PermissionDenied))
            }
        },
        None => Err(CoreError::Db(DatabaseError::NotFound(SESSION_NOT_FOUND.to_owned()))),
    }
}

impl SessionInfo {
    /// The session as its user sees it; it is the current one where it owns
    /// the access token that asks.
    pub fn of(session: &TokenSession, claims: &TokenClaims) -> (info: Self)
        ensures
            info_view(info) == session_info(session@, claims@.jti),
    {
        let is_current = match &claims.jti {
            Some(jti) => str_eq(jti.as_str(), session.access_token_jti.as_str()),
            None => false,
        };
        SessionInfo {
            id: session.id.clone(),
            device_info: clone_opt(&session.device_info),
            ip_address: clone_opt(&session.ip_address),
            location: clone_opt(&session.location),
            created_at: session.created_at,
            last_active_at: session.last_active_at,
            is_current,
        }
    }
}

/// Whether `account` is the account of a new registration: an ordinary user
/// under the id `id`, with the given name and address and a hash of the
/// password, whose address is not confirmed.
pub open spec fn registered(
    account: UserView,
    id: Seq<char>,
    name: Seq<char>,
    email: Seq<char>,
    password: Seq<char>,
) -> bool {
    &&& account.id == id
    &&& account.name == name
    &&& account.email == email
    &&& bcrypt_verified(password, account.password) == Some(true)
    &&& account.role == Role::User
    &&& !account.verified
}

/// Registers an account and reports it with status 201. Input with a fault
/// and an email address that is taken are refused, and nothing is stored.
pub fn register(state: &mut AppState, payload: RegisterRequest) -> (done: Result<
    (u16, UserInfo),
    CoreError,
>)
    requires
        old(state).user_service.well_formed(),
    ensures
        final(state).user_service.well_formed(),
        final(state).token_service == old(state).token_service,
        match done {
            Ok(reply) => {
                &&& reply.0 == CREATED
                &&& input_fault(payload.name@, payload.email@, payload.password@) is None
                &&& !has_email(old(state).user_service.user_repo@, payload.email@)
                &&& reply.1.name@ == payload.name@
                &&& reply.1.email@ == payload.email@
                &&& reply.1.role@ == "User"@
                &&& final(state).user_service.user_repo@ == old(state).user_service.user_repo@.push(
                    final(state).user_service.user_repo@.last(),
                )
                &&& registered(
                    final(state).user_service.user_repo@.last(),
                    reply.1.id@,
                    payload.name@,
                    payload.email@,
                    payload.password@,
                )
                &&& is_timestamp(reply.1.created_at as int)
                &&& final(state).user_service.user_repo@.last().created_at == Some(
                    reply.1.created_at,
                )
                &&& final(state).user_service.user_repo@.last().updated_at == Some(
                    reply.1.created_at,
                )
            },
            Err(e) => {
                &&& final(state).user_service.user_repo@ == old(state).user_service.user_repo@
                &&& match input_fault(payload.name@, payload.email@, payload.password@) {
                    Some(fault) => e == CoreError::Auth(fault),
                    None => if has_email(old(state).user_service.user_repo@, payload.email@) {
                        e == CoreError::Auth(AuthError::EmailAlreadyExists)
                    } else {
                        ||| e == CoreError::Auth(AuthError::HashingError)
                        ||| account_id_may_be_taken(old(state).user_service.user_repo@)
                            && e matches CoreError::Db(DatabaseError::ConstraintViolation(_))
                    },
                }
            },
        },
{
    let user = match state.user_service.create_user(payload.name, payload.email, payload.password) {
        Ok(user) => user,
        Err(e) => {
            return Err(e);
        },
    };
    assert(state.user_service.user_repo@.last() == user@);
    Ok((CREATED, UserInfo::of(&user)))
}

/// Logs a user in: checks the password, opens a session on the device the
/// request names, and hands out its tokens, which grant the default scopes
/// of the user's role. A refused login changes nothing. With good
/// credentials a login fails only where the new session's id is already
/// taken; where the store holds no session it succeeds.
pub fn login(state: &mut AppState, payload: LoginRequest) -> (done: Result<LoginResponse, CoreError>)
    requires
        old(state).well_formed(),
    ensures
        final(state).well_formed(),
        final(state).user_service == old(state).user_service,
        match done {
            Ok(reply) => {
                &&& login_outcome(
                    old(state).user_service.user_repo@,
                    payload.email@,
                    payload.password@,
                ) matches Ok(user) && reply.user.id@ == user.id && reply.user.email@ == user.email
                    && reply.user.name@ == user.name && reply.user.role@ == user.role.name()
                    && session_opened(
                    old(state).token_service.config,
                    reply.tokens.access_token@,
                    reply.tokens.refresh_token@,
                    final(state).token_service.token_repo@.last(),
                    user.id,
                    user.email,
                    user.role,
                    opt_text(payload.device_info),
                    default_scope_texts(user.role),
                )
                &&& reply.tokens.token_type@ == BEARER@
                &&& reply.tokens.expires_in == old(
                    state,
                ).token_service.config.access_token_expires_in
                &&& final(state).token_service.token_repo@ == old(
                    state,
                ).token_service.token_repo@.push(final(state).token_service.token_repo@.last())
            },
            Err(e) => {
                &&& final(state).token_service.token_repo@ == old(state).token_service.token_repo@
                &&& match login_outcome(
                    old(state).user_service.user_repo@,
                    payload.email@,
                    payload.password@,
                ) {
                    Ok(_) => fresh_id_may_be_taken(old(state).token_service.token_repo@)
                        && e matches CoreError::Db(DatabaseError::ConstraintViolation(_)),
                    Err(refused) => e == refused,
                }
            },
        },
{
    let user = match state.user_service.authenticate_user(payload.email, payload.password) {
        Ok(user) => user,
        Err(e) => {
            return Err(e);
        },
    };
    let (access_token, refresh_token, session) = match state.token_service.create_session(
        user.id.as_str(),
        user.email.as_str(),
        &user.role,
        payload.device_info,
        None,
    ) {
        Ok(login) => login,
        Err(e) => {
            return Err(e);
        },
    };
    assert(state.token_service.token_repo@.last() == session@);
    let expires_in = state.token_service.config.access_token_expires_in;
    Ok(
        LoginResponse {
            user: UserResponse::from(user),
            tokens: TokenResponse::new(access_token, refresh_token, expires_in),
        },
    )
}

/// The tokens that a renewal handed out, or why it refused.
pub open spec fn renewal_of(done: Result<RefreshTokenResponse, CoreError>) -> Result<
    (String, String),
    CoreError,
> {
    match done {
        Ok(reply) => Ok((reply.access_token, reply.refresh_token)),
        Err(e) => Err(e),
    }
}

/// Renews a session at the clock's current second and hands out its new
/// tokens. A token that renews nothing is refused and nothing changes.
pub fn refresh_token(state: &mut AppState, payload: RefreshTokenRequest) -> (done: Result<
    RefreshTokenResponse,
    CoreError,
>)
    requires
        old(state).token_service.well_formed(),
    ensures
        final(state).token_service.well_formed(),
        final(state).user_service == old(state).user_service,
        done matches Ok(reply) ==> reply.token_type@ == BEARER@ && reply.expires_in == old(
            state,
        ).token_service.config.access_token_expires_in,
        exists|now: int|
            is_timestamp(now) && #[trigger] refresh_outcome(
                old(state).token_service.config,
                old(state).token_service.token_repo@,
                final(state).token_service.token_repo@,
                payload.refresh_token@,
                now,
                renewal_of(done),
            ),
{
    let renewed = state.token_service.refresh_session(payload.refresh_token.as_str());
    let ghost now = choose|now: int|
        is_timestamp(now) && #[trigger] refresh_outcome(
            old(state).token_service.config,
            old(state).token_service.token_repo@,
            state.token_service.token_repo@,
            payload.refresh_token@,
            now,
            renewed,
        );
    let done = match renewed {
        Ok((access_token, refresh_token)) => Ok(
            RefreshTokenResponse {
                access_token,
                refresh_token,
                token_type: BEARER.to_owned(),
                expires_in: state.token_service.config.access_token_expires_in,
            },
        ),
        Err(e) => Err(e),
    };
    assert(renewal_of(done) == renewed);
    assert(refresh_outcome(
        old(state).token_service.config,
        old(state).token_service.token_repo@,
        state.token_service.token_repo@,
        payload.refresh_token@,
        now,
        renewal_of(done),
    ));
    done
}

/// The session that a logout ends: the one that owns the refresh token of
/// the request, if the request has one; else the one that owns the access
/// token that asks.
pub open spec fn logout_target(
    claims: ClaimsView,
    refresh: Option<ClaimsView>,
    sessions: Seq<SessionView>,
) -> Option<SessionView> {
    match refresh {
        Some(refresh) => match refresh.jti {
            Some(jti) => lookup(sessions, SessionKey::RefreshJti, jti),
            None => None,
        },
        None => match claims.jti {
            Some(jti) => lookup(sessions, SessionKey::AccessJti, jti),
            None => None,
        },
    }
}

/// Logs out: revokes the session of the request's refresh token or, without
/// one, the session of the access token that asks. A logout that finds no
/// session succeeds all the same. A refresh token that cannot be read is
/// refused and nothing changes.
pub fn logout(state: &mut AppState, claims: &TokenClaims, payload: LogoutRequest) -> (done: Result<
    LogoutResponse,
    CoreError,
>)
    requires
        old(state).token_service.token_repo.well_formed(),
    ensures
        final(state).token_service.token_repo.well_formed(),
        final(state).token_service.config == old(state).token_service.config,
        final(state).user_service == old(state).user_service,
        match done {
            Ok(reply) => {
                &&& reply.message@ == LOGGED_OUT@
                &&& match payload.refresh_token {
                    Some(token) => verify_for(
                        token@,
                        old(state).token_service.config.jwt_refresh_secret@,
                        TokenType::Refresh,
                    ) matches Ok(refresh) && final(state).token_service.token_repo@
                        == match logout_target(
                        claims@,
                        Some(refresh),
                        old(state).token_service.token_repo@,
                    ) {
                        Some(session) => revoke(old(state).token_service.token_repo@, session.id),
                        None => old(state).token_service.token_repo@,
                    },
                    None => final(state).token_service.token_repo@ == match logout_target(
                        claims@,
                        None,
                        old(state).token_service.token_repo@,
                    ) {
                        Some(session) => revoke(old(state).token_service.token_repo@, session.id),
                        None => old(state).token_service.token_repo@,
                    },
                }
            },
            Err(e) => {
                &&& payload.refresh_token matches Some(token) && verify_for(
                    token@,
                    old(state).token_service.config.jwt_refresh_secret@,
                    TokenType::Refresh,
                ) matches Err(refused) && e == CoreError::Jwt(refused)
                &&& final(state).token_service.token_repo@ == old(state).token_service.token_repo@
            },
        },
{
    let found = match payload.refresh_token {
        Some(refresh_token) => {
            let refresh_claims = match state.token_service.verify_refresh_token(
                refresh_token.as_str(),
            ) {
                Ok(claims) => claims,
                Err(e) => {
                    return Err(e);
                },
            };
            match refresh_claims.jti {
                Some(jti) => match state.token_service.token_repo.find_by_refresh_token_jti(jti) {
                    Ok(found) => found,
                    Err(e) => {
                        return Err(e);
                    },
                },
                None => None,
            }
        },
        None => match &claims.jti {
            Some(jti) => match state.token_service.token_repo.find_by_access_token_jti(
                jti.clone(),
            ) {
                Ok(found) => found,
                Err(e) => {
                    return Err(e);
                },
            },
            None => None,
        },
    };
    if let Some(session) = found {
        let _ = state.token_service.revoke_session(session.id);
    }
    Ok(LogoutResponse { message: LOGGED_OUT.to_owned() })
}

/// Changes the password of the user that asks and, so that every device
/// must log in again, revokes all the user's sessions. A refused change
/// leaves accounts and sessions as they were.
pub fn change_password(state: &mut AppState, claims: &TokenClaims, payload: ChangePasswordRequest) -> (done:
    Result<(u16, MessageResponse), CoreError>)
    requires
        old(state).user_service.well_formed(),
        old(state).token_service.token_repo.well_formed(),
    ensures
        final(state).user_service.well_formed(),
        final(state).token_service.token_repo.well_formed(),
        final(state).token_service.config == old(state).token_service.config,
        match done {
            Ok(reply) => {
                &&& reply.0 == OK
                &&& reply.1.message@ == PASSWORD_CHANGED@
                &&& owner_fault(
                    old(state).user_service.user_repo@,
                    claims@.sub,
                    payload.current_password@,
                ) is None
                &&& exists|user: UserView| #[trigger]
                    password_replaced(
                        old(state).user_service.user_repo@,
                        final(state).user_service.user_repo@,
                        claims@.sub,
                        payload.new_password@,
                        user,
                    )
                &&& final(state).token_service.token_repo@ == revoke_user(
                    old(state).token_service.token_repo@,
                    claims@.sub,
                )
            },
            Err(e) => {
                &&& final(state).token_service.token_repo@ == old(state).token_service.token_repo@
                &&& final(state).user_service.user_repo@ == old(state).user_service.user_repo@
                &&& match owner_fault(
                    old(state).user_service.user_repo@,
                    claims@.sub,
                    payload.current_password@,
                ) {
                    Some(fault) => e == CoreError::Auth(fault),
                    None => match password_fault(payload.new_password@) {
                        Some(fault) => e == CoreError::Auth(fault),
                        None => e == CoreError::Auth(AuthError::HashingError),
                    },
                }
            },
        },
{
    let user = match state.user_service.change_password(
        claims.sub.clone(),
        payload.current_password,
        payload.new_password,
    ) {
        Ok(user) => user,
        Err(e) => {
            return Err(e);
        },
    };
    let _ = state.token_service.revoke_all_user_sessions(claims.sub.clone());
    assert(password_replaced(
        old(state).user_service.user_repo@,
        state.user_service.user_repo@,
        claims@.sub,
        payload.new_password@,
        user@,
    ));
    Ok((OK, say(PASSWORD_CHANGED)))
}

/// Whether `mail` carries a token of the given purpose, newly issued for
/// an account of the store that has the address `email`.
pub open spec fn mails_token_to(
    state: AppState,
    mail: (String, String),
    email: Seq<char>,
    purpose: TokenType,
) -> bool {
    &&& mail.0@ == email
    &&& exists|user: UserView|
        {
            &&& state.user_service.user_repo@.contains(user)
            &&& user.email == email
            &&& #[trigger] minted_token(
                mail.1@,
                state.token_service.config.secret_of(purpose)->Some_0,
                purpose,
                user.id,
                Some(email),
                None,
                seq![TokenService::single_scope(purpose)],
                state.token_service.config.lifetime_of(purpose)->Some_0,
            )
        }
}

/// Answers a forgotten password: where an account has the address, a token
/// that allows one reset is issued for it, to be sent by mail. The answer
/// is the same whether or not the address is known, so that nobody learns
/// which addresses have accounts. This never fails.
pub fn forgot_password(state: &AppState, payload: ForgotPasswordRequest) -> (done: Result<
    MailedResponse,
    CoreError,
>)
    requires
        state.token_service.config.well_formed(),
    ensures
        done matches Ok(reply) && reply.message@ == RESET_LINK_SENT@ && match reply.mail {
            Some(mail) => mails_token_to(*state, mail, payload.email@, TokenType::PasswordReset),
            None => !has_email(state.user_service.user_repo@, payload.email@),
        },
{
    let found = match state.user_service.find_by_email(payload.email) {
        Ok(found) => found,
        Err(e) => {
            return Err(e);
        },
    };
    let mail = match found {
        Some(user) => {
            let token = match state.token_service.generate_password_reset_token(
                user.id.as_str(),
                user.email.as_str(),
            ) {
                Ok(token) => token,
                Err(e) => {
                    return Err(e);
                },
            };
            let ghost account = user@;
            let mail = (user.email, token);
            assert(mails_token_to(*state, mail, payload.email@, TokenType::PasswordReset)) by {
                assert(state.user_service.user_repo@.contains(account));
                assert(minted_token(
                    mail.1@,
                    state.token_service.config.secret_of(TokenType::PasswordReset)->Some_0,
                    TokenType::PasswordReset,
                    account.id,
                    Some(payload.email@),
                    None,
                    seq![TokenService::single_scope(TokenType::PasswordReset)],
                    state.token_service.config.lifetime_of(TokenType::PasswordReset)->Some_0,
                ));
            }
            Some(mail)
        },
        None => None,
    };
    Ok(MailedResponse { message: RESET_LINK_SENT.to_owned(), mail })
}

/// What a password reset at the second `now` comes to. The token must read
/// as a reset token and must not have ended, and the new password must be
/// without fault; then the account of the token's user has a hash of the
/// new password and every session of the user is revoked. A refusal leaves
/// accounts and sessions as they were: a token that has ended is refused as
/// expired, a password with a fault with that fault, and beyond that a
/// reset fails only where the password cannot be hashed or the account is
/// gone.
pub open spec fn password_reset_outcome(
    before: AppState,
    after: AppState,
    payload: ResetPasswordRequest,
    now: int,
    done: Result<MessageResponse, CoreError>,
) -> bool {
    let users = before.user_service.user_repo@;
    let sessions = before.token_service.token_repo@;
    let read = verify_for(
        payload.token@,
        before.token_service.config.password_reset_secret@,
        TokenType::PasswordReset,
    );
    match done {
        Ok(reply) => {
            &&& reply.message@ == PASSWORD_RESET@
            &&& read matches Ok(claims) && !claims.expired_at(now) && after.token_service.token_repo@
                == revoke_user(sessions, claims.sub) && exists|user: UserView| #[trigger]
                password_replaced(
                    users,
                    after.user_service.user_repo@,
                    claims.sub,
                    payload.new_password@,
                    user,
                )
        },
        Err(e) => {
            &&& after.token_service.token_repo@ == sessions
            &&& after.user_service.user_repo@ == users
            &&& match read {
                Err(refused) => e == CoreError::Jwt(refused),
                Ok(claims) => if claims.expired_at(now) {
                    e == CoreError::Auth(AuthError::TokenExpired)
                } else {
                    match password_fault(payload.new_password@) {
                        Some(fault) => e == CoreError::Auth(fault),
                        None => {
                            ||| e == CoreError::Auth(AuthError::HashingError)
                            ||| !has_user_id(users, claims.sub)
                                && e matches CoreError::Db(DatabaseError::NotFound(_))
                        },
                    }
                },
            }
        },
    }
}

/// Sets a new password for the user of a reset token at the second `now`,
/// and revokes all the user's sessions.
pub fn reset_password_at(state: &mut AppState, payload: ResetPasswordRequest, now: i64) -> (done:
    Result<MessageResponse, CoreError>)
    requires
        old(state).user_service.well_formed(),
        old(state).token_service.token_repo.well_formed(),
    ensures
        final(state).user_service.well_formed(),
        final(state).token_service.token_repo.well_formed(),
        final(state).token_service.config == old(state).token_service.config,
        password_reset_outcome(*old(state), *final(state), payload, now as int, done),
{
    let claims = match state.token_service.verify_password_reset_token(payload.token.as_str()) {
        Ok(claims) => claims,
        Err(e) => {
            return Err(e);
        },
    };
    let claims = match require_unexpired(claims, now) {
        Ok(claims) => claims,
        Err(e) => {
            return Err(e);
        },
    };
    let user = match state.user_service.reset_password(claims.sub.clone(), payload.new_password) {
        Ok(user) => user,
        Err(e) => {
            return Err(e);
        },
    };
    let ghost user_id = claims@.sub;
    let _ = state.token_service.revoke_all_user_sessions(claims.sub);
    assert(password_replaced(
        old(state).user_service.user_repo@,
        state.user_service.user_repo@,
        user_id,
        payload.new_password@,
        user@,
    ));
    Ok(say(PASSWORD_RESET))
}

/// Sets a new password for the user of a reset token, and revokes all the
/// user's sessions, at the clock's current second, whichever second that
/// is.
pub fn reset_password(state: &mut AppState, payload: ResetPasswordRequest) -> (done: Result<
    MessageResponse,
    CoreError,
>)
    requires
        old(state).user_service.well_formed(),
        old(state).token_service.token_repo.well_formed(),
    ensures
        final(state).user_service.well_formed(),
        final(state).token_service.token_repo.well_formed(),
        final(state).token_service.config == old(state).token_service.config,
        exists|now: int|
            is_timestamp(now) && #[trigger] password_reset_outcome(
                *old(state),
                *final(state),
                payload,
                now,
                done,
            ),
{
    let now = unix_now();
    let done = reset_password_at(state, payload, now);
    assert(password_reset_outcome(*old(state), *state, payload, now as int, done));
    done
}

/// What an email confirmation at the second `now` comes to. The request
/// must hold a token that reads as a verification token and has not ended,
/// and the account of its user must exist; then that account is confirmed.
/// A refusal changes nothing: a request without a token is refused as
/// such, a token that has ended as expired, and a token whose account is
/// gone as not found.
pub open spec fn email_confirmation_outcome(
    before: AppState,
    after: AppState,
    token: Option<&str>,
    now: int,
    done: Result<MessageResponse, CoreError>,
) -> bool {
    let users = before.user_service.user_repo@;
    match token {
        None => done == Err::<MessageResponse, CoreError>(
            CoreError::Auth(AuthError::TokenNotProvided),
        ) && after.user_service.user_repo@ == users,
        Some(token) => match verify_for(
            token@,
            before.token_service.config.email_verification_secret@,
            TokenType::EmailVerification,
        ) {
            Err(refused) => done == Err::<MessageResponse, CoreError>(CoreError::Jwt(refused))
                && after.user_service.user_repo@ == users,
            Ok(claims) => if claims.expired_at(now) {
                done == Err::<MessageResponse, CoreError>(CoreError::Auth(AuthError::TokenExpired))
                    && after.user_service.user_repo@ == users
            } else if has_user_id(users, claims.sub) {
                &&& done matches Ok(reply) && reply.message@ == EMAIL_VERIFIED@
                &&& exists|user: UserView| #[trigger]
                    email_confirmed(users, after.user_service.user_repo@, claims.sub, user)
            } else {
                &&& done matches Err(CoreError::Db(DatabaseError::NotFound(_)))
                &&& after.user_service.user_repo@ == users
            },
        },
    }
}

/// Confirms the email address of the user of a verification token, at the
/// second `now`.
pub fn verify_email_at(state: &mut AppState, token: Option<&str>, now: i64) -> (done: Result<
    MessageResponse,
    CoreError,
>)
    requires
        old(state).user_service.well_formed(),
    ensures
        final(state).user_service.well_formed(),
        final(state).token_service == old(state).token_service,
        email_confirmation_outcome(*old(state), *final(state), token, now as int, done),
{
    let token = match token {
        Some(token) => token,
        None => {
            return Err(CoreError::Auth(AuthError::TokenNotProvided));
        },
    };
    let claims = match state.token_service.verify_email_verification_token(token) {
        Ok(claims) => claims,
        Err(e) => {
            return Err(e);
        },
    };
    let claims = match require_unexpired(claims, now) {
        Ok(claims) => claims,
        Err(e) => {
            return Err(e);
        },
    };
    let ghost user_id = claims@.sub;
    match state.user_service.verify_email(claims.sub) {
        Ok(user) => {
            assert(email_confirmed(
                old(state).user_service.user_repo@,
                state.user_service.user_repo@,
                user_id,
                user@,
            ));
            Ok(say(EMAIL_VERIFIED))
        },
        Err(e) => Err(e),
    }
}

/// Confirms the email address of the user of a verification token, at the
/// clock's current second, whichever second that is.
pub fn verify_email(state: &mut AppState, token: Option<&str>) -> (done: Result<
    MessageResponse,
    CoreError,
>)
    requires
        old(state).user_service.well_formed(),
    ensures
        final(state).user_service.well_formed(),
        final(state).token_service == old(state).token_service,
        exists|now: int|
            is_timestamp(now) && #[trigger] email_confirmation_outcome(
                *old(state),
                *final(state),
                token,
                now,
                done,
            ),
{
    let now = unix_now();
    let done = verify_email_at(state, token, now);
    assert(email_confirmation_outcome(*old(state), *state, token, now as int, done));
    done
}

/// The sessions of a list as their user sees them.
pub open spec fn session_infos(sessions: Seq<SessionView>, current: Option<Seq<char>>) -> Seq<
    SessionInfoView,
> {
    sessions.map_values(|s: SessionView| session_info(s, current))
}

/// The active sessions of the user that asks, each marked whether it is the
/// session of the access token that asks. This never fails.
pub fn get_user_sessions(state: &AppState, claims: &TokenClaims) -> (done: Result<
    SessionList,
    CoreError,
>)
    ensures
        done matches Ok(list) && list.total == list.sessions.len() && list.sessions@.map_values(
            |i: SessionInfo| info_view(i),
        ) == session_infos(
            active_of(state.token_service.token_repo@, claims@.sub),
            claims@.jti,
        ),
{
    let sessions = match state.token_service.get_user_active_sessions(claims.sub.clone()) {
        Ok(sessions) => sessions,
        Err(e) => {
            return Err(e);
        },
    };
    let mut infos: Vec<SessionInfo> = Vec::new();
    let mut i: usize = 0;
    while i < sessions.len()
        invariant
            i <= sessions.len(),
            infos.len() == i,
            forall|k: int|
                0 <= k < i ==> info_view(#[trigger] infos@[k]) == session_info(
                    sessions@[k]@,
                    claims@.jti,
                ),
        decreases sessions.len() - i,
    {
        infos.push(SessionInfo::of(&sessions[i], claims));
        i += 1;
    }
    assert(infos@.map_values(|i: SessionInfo| info_view(i)) =~= session_infos(
        views(sessions@),
        claims@.jti,
    ));
    let total = infos.len();
    Ok(SessionList { sessions: infos, total })
}

/// Revokes every session of the user that asks. This never fails.
pub fn revoke_all_sessions(state: &mut AppState, claims: &TokenClaims) -> (done: Result<
    MessageResponse,
    CoreError,
>)
    requires
        old(state).token_service.token_repo.well_formed(),
    ensures
        final(state).token_service.token_repo.well_formed(),
        final(state).token_service.config == old(state).token_service.config,
        final(state).user_service == old(state).user_service,
        done matches Ok(reply) && reply.message@ == ALL_SESSIONS_REVOKED@,
        final(state).token_service.token_repo@ == revoke_user(
            old(state).token_service.token_repo@,
            claims@.sub,
        ),
        active_of(final(state).token_service.token_repo@, claims@.sub).len() == 0,
{
    let _ = state.token_service.revoke_all_user_sessions(claims.sub.clone());
    Ok(say(ALL_SESSIONS_REVOKED))
}

/// Revokes one session of the user that asks. Without a session id the
/// request is refused as invalid; a session that does not exist is not
/// found; the session of another user may not be revoked. A refusal changes
/// nothing.
pub fn revoke_session(state: &mut AppState, claims: &TokenClaims, session_id: Option<&str>) -> (done:
    Result<MessageResponse, CoreError>)
    requires
        old(state).token_service.token_repo.well_formed(),
    ensures
        final(state).token_service.token_repo.well_formed(),
        final(state).token_service.config == old(state).token_service.config,
        final(state).user_service == old(state).user_service,
        match session_id {
            None => done == Err::<MessageResponse, CoreError>(
                CoreError::Auth(AuthError::InvalidCredentials),
            ),
            Some(id) => match lookup(old(state).token_service.token_repo@, SessionKey::Id, id@) {
                None => done matches Err(CoreError::Db(DatabaseError::NotFound(m))) && m@
                    == SESSION_NOT_FOUND@,
                Some(session) => if session.user_id != claims@.sub {
                    done == Err::<MessageResponse, CoreError>(
                        CoreError::Auth(AuthError::PermissionDenied),
                    )
                } else {
                    done matches Ok(reply) && reply.message@ == SESSION_REVOKED@
                },
            },
        },
        final(state).token_service.token_repo@ == match done {
            Ok(_) => revoke(old(state).token_service.token_repo@, session_id->Some_0@),
            Err(_) => old(state).token_service.token_repo@,
        },
{
    let session_id = match session_id {
        Some(id) => id,
        None => {
            return Err(CoreError::Auth(AuthError::InvalidCredentials));
        },
    };
    let found = match state.token_service.token_repo.find_by_id(session_id.to_owned()) {
        Ok(found) => found,
        Err(e) => {
            return Err(e);
        },
    };
    match require_own_session(claims, found) {
        Ok(_) => {},
        Err(e) => {
            return Err(e);
        },
    }
    let _ = state.token_service.revoke_session(session_id.to_owned());
    Ok(say(SESSION_REVOKED))
}

/// Issues a new token that confirms the email address of the user that
/// asks, to be sent by mail to that address. A user whose address is
/// confirmed gets none and is told so; a user whose account is gone is
/// refused.
pub fn resend_verification_email(state: &AppState, claims: &TokenClaims) -> (done: Result<
    MailedResponse,
    CoreError,
>)
    requires
        state.token_service.config.well_formed(),
    ensures
        match find_user(state.user_service.user_repo@, false, claims@.sub) {
            Some(user) => done matches Ok(reply) && if user.verified {
                reply.mail is None && reply.message@ == ALREADY_VERIFIED@
            } else {
                reply.message@ == VERIFICATION_SENT@ && (reply.mail matches Some(mail) && mail.0@
                    == user.email && minted_token(
                    mail.1@,
                    state.token_service.config.email_verification_secret@,
                    TokenType::EmailVerification,
                    user.id,
                    Some(user.email),
                    None,
                    seq!["email:verify"@],
                    EMAIL_VERIFICATION_EXPIRES_IN as int,
                ))
            },
            None => done == Err::<MailedResponse, CoreError>(
                CoreError::Auth(AuthError::UserNoLongerExists),
            ),
        },
{
    let user = match state.user_service.find_by_id(claims.sub.clone()) {
        Ok(Some(user)) => user,
        Ok(None) => {
            return Err(CoreError::Auth(AuthError::UserNoLongerExists));
        },
        Err(e) => {
            return Err(e);
        },
    };
    if user.verified {
        return Ok(MailedResponse { message: ALREADY_VERIFIED.to_owned(), mail: None });
    }
    let token = match state.token_service.generate_email_verification_token(
        user.id.as_str(),
        user.email.as_str(),
    ) {
        Ok(token) => token,
        Err(e) => {
            return Err(e);
        },
    };
    let mail = (user.email, token);
    Ok(MailedResponse { message: VERIFICATION_SENT.to_owned(), mail: Some(mail) })
}

} // verus!
