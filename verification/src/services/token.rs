//! The session authority: it issues tokens, opens sessions for logins,
//! renews and revokes them, and checks a presented access token against the
//! session that owns it.

use crate::clock::{is_timestamp, unix_now};
use crate::codec::{issue, issued, verify, verified};
use crate::config::token::{
    TokenConfig, EMAIL_VERIFICATION_EXPIRES_IN, PASSWORD_RESET_EXPIRES_IN,
};
use crate::database::token::{
    active_of, has_match, key_text, lookup, revoke, revoke_user, rotate, sweep, touch, views,
    SessionKey, TokenRepository, RETENTION_SECS,
};
use crate::errors::auth::AuthError;
use crate::errors::db::DatabaseError;
use crate::errors::error::CoreError;
use crate::errors::jwt::JwtError;
use crate::ids::ID_LEN;
use crate::json::Json;
use crate::models::role::Role;
use crate::models::token_claims::{
    default_scope_texts, opt_text, ClaimsView, TokenClaims, AUDIENCE, ISSUER,
};
use crate::models::token_scope::TokenScope;
use crate::models::token_session::{SessionView, TokenSession};
use crate::models::token_type::TokenType;
use vstd::prelude::*;
use vstd::string::*;

verus! {

/// What reading `token` as a token of the given purpose gives: the claims,
/// if the token is good under `secret` and was issued for that purpose. A
/// token of another purpose is refused like a token with a bad signature.
pub open spec fn verify_for(token: Seq<char>, secret: Seq<char>, purpose: TokenType) -> Result<
    ClaimsView,
    JwtError,
> {
    match verified(token, secret) {
        Ok(claims) => if claims.token_type == purpose {
            Ok(claims)
        } else {
            Err(JwtError::InvalidSignature)
        },
        Err(e) => Err(e),
    }
}

/// The claims that the authority writes for a new token: issued at a second
/// of the clock, ending `ttl` seconds later, with a fresh identifier and no
/// custom claims.
pub open spec fn minted(
    c: ClaimsView,
    purpose: TokenType,
    user_id: Seq<char>,
    email: Option<Seq<char>>,
    role: Option<Role>,
    scopes: Seq<Seq<char>>,
    ttl: int,
) -> bool {
    &&& c.sub == user_id
    &&& c.token_type == purpose
    &&& is_timestamp(c.iat)
    &&& c.exp == c.iat + ttl
    &&& c.iss == Some(ISSUER@)
    &&& c.aud == Some(AUDIENCE@)
    &&& c.jti matches Some(id) && id.len() == ID_LEN
    &&& c.email == email
    &&& c.role == role
    &&& c.scopes == scopes
    &&& c.extra == Json::Object(Map::empty())
}

/// `token` was issued under `secret` for claims that the authority wrote
/// with the given content.
pub open spec fn minted_token(
    token: Seq<char>,
    secret: Seq<char>,
    purpose: TokenType,
    user_id: Seq<char>,
    email: Option<Seq<char>>,
    role: Option<Role>,
    scopes: Seq<Seq<char>>,
    ttl: int,
) -> bool {
    exists|c: ClaimsView|
        issued(token, c, secret) && #[trigger] minted(c, purpose, user_id, email, role, scopes, ttl)
}

/// The scopes of a new access token: those the caller chose, else the
/// defaults of the role.
pub open spec fn chosen_scopes(custom: Option<Vec<TokenScope>>, role: Role) -> Seq<Seq<char>> {
    match custom {
        Some(scopes) => TokenScope::texts(scopes@),
        None => default_scope_texts(role),
    }
}

/// The refusal of a token that no active session owns. It is the same for a
/// session that is missing and for one that was revoked.
pub open spec fn invalid_token() -> CoreError {
    CoreError::Auth(AuthError::InvalidToken)
}

/// The active session that owns the token identifier `jti` under `key`;
/// without an identifier, without a session, or with a revoked session, the
/// token is refused.
pub open spec fn live_session(
    sessions: Seq<SessionView>,
    key: SessionKey,
    jti: Option<Seq<char>>,
) -> Result<SessionView, CoreError> {
    match jti {
        Some(jti) => match lookup(sessions, key, jti) {
            Some(session) => if session.is_active {
                Ok(session)
            } else {
                Err(invalid_token())
            },
            None => Err(invalid_token()),
        },
        None => Err(invalid_token()),
    }
}

/// The session that a refresh token renews at the second `now`: the token
/// must read as a refresh token, an active session must own its identifier,
/// and its claims must not have ended. A token without a live session is
/// refused as invalid whether or not it has ended; a token with one that
/// has ended is refused as expired.
pub open spec fn refresh_target(
    read: Result<ClaimsView, JwtError>,
    sessions: Seq<SessionView>,
    now: int,
) -> Result<SessionView, CoreError> {
    match read {
        Ok(claims) => match live_session(sessions, SessionKey::RefreshJti, claims.jti) {
            Ok(session) => if claims.expired_at(now) {
                Err(CoreError::Jwt(JwtError::TokenExpired))
            } else {
                Ok(session)
            },
            Err(e) => Err(e),
        },
        Err(e) => Err(CoreError::Jwt(e)),
    }
}

/// What a renewal at the second `now` comes to. On success the session's
/// owner has a new pair of tokens and the session owns their identifiers
/// from then on; on a refusal nothing is issued and the store stays as it
/// was.
pub open spec fn refresh_outcome(
    config: TokenConfig,
    before: Seq<SessionView>,
    after: Seq<SessionView>,
    token: Seq<char>,
    now: int,
    renewed: Result<(String, String), CoreError>,
) -> bool {
    let target = refresh_target(
        verify_for(token, config.jwt_refresh_secret@, TokenType::Refresh),
        before,
        now,
    );
    match renewed {
        Ok(tokens) => target matches Ok(session) && exists|pair: Reissued|
            {
                &&& #[trigger] reissued_for(config, pair, session.user_id)
                &&& pair.access_token == tokens.0
                &&& pair.refresh_token == tokens.1
                &&& after == rotate(before, session.id, pair.access_jti@, pair.refresh_jti@, now)
            },
        Err(e) => target == Err::<SessionView, CoreError>(e) && after == before,
    }
}

/// What the store's answer to a lookup comes to for the token that asked:
/// the session, if the store found one and it is active. A session that is
/// missing and one that is revoked refuse the token alike, as invalid; a
/// store that failed to answer is reported as it failed, and refuses
/// nothing on its own account.
pub open spec fn lookup_verdict(answer: Result<Option<TokenSession>, CoreError>) -> Result<
    TokenSession,
    CoreError,
> {
    match answer {
        Ok(Some(session)) => if session.is_active {
            Ok(session)
        } else {
            Err(invalid_token())
        },
        Ok(None) => Err(invalid_token()),
        Err(e) => Err(e),
    }
}

/// Whether `after` is the store `before` with the session that owns the
/// access-token identifier `jti` recorded as seen at some second of the
/// clock. Claims without an identifier are bound to no session: for them
/// the store is as before.
pub open spec fn noted_alive(
    before: Seq<SessionView>,
    after: Seq<SessionView>,
    jti: Option<Seq<char>>,
) -> bool {
    match jti {
        Some(jti) => exists|at: int|
            is_timestamp(at) && after == #[trigger] touch(
                before,
                lookup(before, SessionKey::AccessJti, jti)->Some_0.id,
                at,
            ),
        None => after == before,
    }
}

/// Whether the store vouches for access claims: if the claims carry an
/// identifier, an active session must own it; claims without one are bound
/// to no session and pass.
pub open spec fn confirm(claims: ClaimsView, sessions: Seq<SessionView>) -> Result<
    ClaimsView,
    CoreError,
> {
    match claims.jti {
        Some(jti) => match live_session(sessions, SessionKey::AccessJti, Some(jti)) {
            Ok(_) => Ok(claims),
            Err(e) => Err(e),
        },
        None => Ok(claims),
    }
}

/// Whom an access token authenticates: the token must read as an access
/// token and the store must vouch for its claims.
pub open spec fn authorize(read: Result<ClaimsView, JwtError>, sessions: Seq<SessionView>) -> Result<
    ClaimsView,
    CoreError,
> {
    match read {
        Ok(claims) => confirm(claims, sessions),
        Err(e) => Err(CoreError::Jwt(e)),
    }
}

/// The text of the header must begin with this word and a space.
pub const BEARER_PREFIX: &'static str = "Bearer ";

/// The token that an `Authorization` header presents: what follows
/// `Bearer ` in a header that begins so.
pub open spec fn bearer_token(header: Seq<char>) -> Option<Seq<char>> {
    if BEARER_PREFIX@.is_prefix_of(header) {
        Some(header.skip(7))
    } else {
        None
    }
}

/// Whether the id of a new session can be taken already: only where the
/// store holds a session whose id has the length of a fresh one. The id of
/// a new session is drawn at random, so whether it is taken is not known
/// beforehand; in a store without such a session it never is.
pub open spec fn fresh_id_may_be_taken(sessions: Seq<SessionView>) -> bool {
    exists|i: int| 0 <= i < sessions.len() && (#[trigger] sessions[i]).id.len() == ID_LEN
}

/// A login was opened: `access` and `refresh` are new tokens of the user,
/// and `session` is a new active session that owns their identifiers.
pub open spec fn session_opened(
    config: TokenConfig,
    access: Seq<char>,
    refresh: Seq<char>,
    session: SessionView,
    user_id: Seq<char>,
    email: Seq<char>,
    role: Role,
    device_info: Option<Seq<char>>,
    scopes: Seq<Seq<char>>,
) -> bool {
    exists|ac: ClaimsView, rc: ClaimsView|
        #![trigger issued(access, ac, config.jwt_access_secret@), issued(refresh, rc, config.jwt_refresh_secret@)]
        {
            &&& issued(access, ac, config.jwt_access_secret@)
            &&& minted(
                ac,
                TokenType::Access,
                user_id,
                Some(email),
                Some(role),
                scopes,
                config.access_token_expires_in as int,
            )
            &&& issued(refresh, rc, config.jwt_refresh_secret@)
            &&& minted(
                rc,
                TokenType::Refresh,
                user_id,
                None,
                None,
                seq!["refresh"@],
                config.refresh_token_expires_in as int,
            )
            &&& session == (SessionView {
                device_info,
                ..SessionView::fresh(
                    session.id,
                    user_id,
                    ac.jti->Some_0,
                    rc.jti->Some_0,
                    session.created_at,
                )
            })
            &&& session.id.len() == ID_LEN
            &&& is_timestamp(session.created_at)
        }
}

/// A new pair of tokens for the owner of a session, with their identifiers.
#[derive(Debug)]
pub struct Reissued {
    pub access_token: String,
    pub refresh_token: String,
    pub access_jti: String,
    pub refresh_jti: String,
}

/// `pair` holds new tokens for `user_id`: an access token with the default
/// scopes of a user and no email, and a refresh token.
pub open spec fn reissued_for(config: TokenConfig, pair: Reissued, user_id: Seq<char>) -> bool {
    exists|ac: ClaimsView, rc: ClaimsView|
        #![trigger issued(pair.access_token@, ac, config.jwt_access_secret@), issued(pair.refresh_token@, rc, config.jwt_refresh_secret@)]
        {
            &&& issued(pair.access_token@, ac, config.jwt_access_secret@)
            &&& minted(
                ac,
                TokenType::Access,
                user_id,
                Some(""@),
                Some(Role::User),
                default_scope_texts(Role::User),
                config.access_token_expires_in as int,
            )
            &&& issued(pair.refresh_token@, rc, config.jwt_refresh_secret@)
            &&& minted(
                rc,
                TokenType::Refresh,
                user_id,
                None,
                None,
                seq!["refresh"@],
                config.refresh_token_expires_in as int,
            )
            &&& ac.jti == Some(pair.access_jti@)
            &&& rc.jti == Some(pair.refresh_jti@)
        }
}

/// The authority: its configuration and its store of sessions.
#[derive(Debug)]
pub struct TokenService {
    pub config: TokenConfig,
    pub token_repo: TokenRepository,
}

impl TokenService {
    /// The lifetimes are in range and the store is well formed.
    pub open spec fn well_formed(&self) -> bool {
        self.config.well_formed() && self.token_repo.well_formed()
    }

    /// An authority with the given configuration and no sessions.
    pub fn new(config: TokenConfig) -> (service: Self)
        ensures
            service.config == config,
            service.token_repo@ == Seq::<SessionView>::empty(),
            service.token_repo.well_formed(),
    {
        TokenService { config, token_repo: TokenRepository::new() }
    }

    /// The token for new access claims, and the claims.
    fn mint_access(
        &self,
        user_id: &str,
        email: &str,
        role: &Role,
        custom_scopes: Option<Vec<TokenScope>>,
    ) -> (made: Result<(String, TokenClaims), CoreError>)
        requires
            self.config.well_formed(),
        ensures
            made matches Ok(pair) && issued(pair.0@, pair.1@, self.config.jwt_access_secret@)
                && minted(
                pair.1@,
                TokenType::Access,
                user_id@,
                Some(email@),
                Some(*role),
                chosen_scopes(custom_scopes, *role),
                self.config.access_token_expires_in as int,
            ),
    {
        let now = unix_now();
        let expires_at = now + self.config.access_token_expires_in;
        let scopes = match custom_scopes {
            Some(scopes) => scopes,
            None => TokenClaims::default_scopes_for_role(role),
        };
        let claims = TokenClaims::new_access_token(
            user_id.to_owned(),
            email.to_owned(),
            *role,
            now,
            expires_at,
            scopes,
        );
        match issue(&claims, self.config.jwt_access_secret.as_str()) {
            Ok(token) => Ok((token, claims)),
            Err(e) => Err(e),
        }
    }

    /// The token for new claims of one of the purposes that grant a single
    /// scope, and the claims.
    fn mint_single(&self, purpose: TokenType, user_id: &str, email: &str) -> (made: Result<
        (String, TokenClaims),
        CoreError,
    >)
        requires
            self.config.well_formed(),
            purpose == TokenType::Refresh || purpose == TokenType::EmailVerification || purpose
                == TokenType::PasswordReset,
        ensures
            made matches Ok(pair) && issued(
                pair.0@,
                pair.1@,
                self.config.secret_of(purpose)->Some_0,
            ) && minted(
                pair.1@,
                purpose,
                user_id@,
                if purpose == TokenType::Refresh {
                    None
                } else {
                    Some(email@)
                },
                None,
                seq![Self::single_scope(purpose)],
                self.config.lifetime_of(purpose)->Some_0,
            ),
    {
        let now = unix_now();
        let (claims, secret) = match purpose {
            TokenType::Refresh => (
                TokenClaims::new_refresh_token(
                    user_id.to_owned(),
                    now,
                    now + self.config.refresh_token_expires_in,
                ),
                self.config.jwt_refresh_secret.as_str(),
            ),
            TokenType::EmailVerification => (
                TokenClaims::new_email_verification_token(
                    user_id.to_owned(),
                    email.to_owned(),
                    now,
                    now + EMAIL_VERIFICATION_EXPIRES_IN,
                ),
                self.config.email_verification_secret.as_str(),
            ),
            _ => (
                TokenClaims::new_password_reset_token(
                    user_id.to_owned(),
                    email.to_owned(),
                    now,
                    now + PASSWORD_RESET_EXPIRES_IN,
                ),
                self.config.password_reset_secret.as_str(),
            ),
        };
        match issue(&claims, secret) {
            Ok(token) => Ok((token, claims)),
            Err(e) => Err(e),
        }
    }

    /// The one scope that a token of the purpose grants.
    pub open spec fn single_scope(purpose: TokenType) -> Seq<char> {
        match purpose {
            TokenType::Refresh => "refresh"@,
            TokenType::EmailVerification => "email:verify"@,
            _ => "password:reset"@,
        }
    }

    /// Issues an access token for the user: it lasts the configured lifetime
    /// from the clock's current second and grants `custom_scopes`, or the
    /// default scopes of `role` where none are given. This never fails.
    pub fn generate_access_token(
        &self,
        user_id: &str,
        email: &str,
        role: &Role,
        custom_scopes: Option<Vec<TokenScope>>,
    ) -> (made: Result<String, CoreError>)
        requires
            self.config.well_formed(),
        ensures
            made matches Ok(token) && minted_token(
                token@,
                self.config.jwt_access_secret@,
                TokenType::Access,
                user_id@,
                Some(email@),
                Some(*role),
                chosen_scopes(custom_scopes, *role),
                self.config.access_token_expires_in as int,
            ),
    {
        match self.mint_access(user_id, email, role, custom_scopes) {
            Ok((token, claims)) => Ok(token),
            Err(e) => Err(e),
        }
    }

    /// Issues a refresh token for the user: it lasts the configured lifetime
    /// from the clock's current second. This never fails.
    pub fn generate_refresh_token(&self, user_id: &str) -> (made: Result<String, CoreError>)
        requires
            self.config.well_formed(),
        ensures
            made matches Ok(token) && minted_token(
                token@,
                self.config.jwt_refresh_secret@,
                TokenType::Refresh,
                user_id@,
                None,
                None,
                seq!["refresh"@],
                self.config.refresh_token_expires_in as int,
            ),
    {
        match self.mint_single(TokenType::Refresh, user_id, "") {
            Ok((token, claims)) => Ok(token),
            Err(e) => Err(e),
        }
    }

    /// Issues a token that confirms the user's email address: it lasts a day
    /// from the clock's current second and is bound to no session. This
    /// never fails.
    pub fn generate_email_verification_token(&self, user_id: &str, email: &str) -> (made: Result<
        String,
        CoreError,
    >)
        requires
            self.config.well_formed(),
        ensures
            made matches Ok(token) && minted_token(
                token@,
                self.config.email_verification_secret@,
                TokenType::EmailVerification,
                user_id@,
                Some(email@),
                None,
                seq!["email:verify"@],
                EMAIL_VERIFICATION_EXPIRES_IN as int,
            ),
    {
        match self.mint_single(TokenType::EmailVerification, user_id, email) {
            Ok((token, claims)) => Ok(token),
            Err(e) => Err(e),
        }
    }

    /// Issues a token that allows one password reset: it lasts an hour from
    /// the clock's current second and is bound to no session. This never
    /// fails.
    pub fn generate_password_reset_token(&self, user_id: &str, email: &str) -> (made: Result<String, CoreError>)
        requires
            self.config.well_formed(),
        ensures
            made matches Ok(token) && minted_token(
                token@,
                self.config.password_reset_secret@,
                TokenType::PasswordReset,
                user_id@,
                Some(email@),
                None,
                seq!["password:reset"@],
                PASSWORD_RESET_EXPIRES_IN as int,
            ),
    {
        match self.mint_single(TokenType::PasswordReset, user_id, email) {
            Ok((token, claims)) => Ok(token),
            Err(e) => Err(e),
        }
    }

    /// Issues an access token and a refresh token for the user. This never
    /// fails.
    pub fn generate_token_pair(
        &self,
        user_id: &str,
        email: &str,
        role: &Role,
        custom_scopes: Option<Vec<TokenScope>>,
    ) -> (made: Result<(String, String), CoreError>)
        requires
            self.config.well_formed(),
        ensures
            made matches Ok(pair) && minted_token(
                pair.0@,
                self.config.jwt_access_secret@,
                TokenType::Access,
                user_id@,
                Some(email@),
                Some(*role),
                chosen_scopes(custom_scopes, *role),
                self.config.access_token_expires_in as int,
            ) && minted_token(
                pair.1@,
                self.config.jwt_refresh_secret@,
                TokenType::Refresh,
                user_id@,
                None,
                None,
                seq!["refresh"@],
                self.config.refresh_token_expires_in as int,
            ),
    {
        let access_token = match self.generate_access_token(user_id, email, role, custom_scopes) {
            Ok(token) => token,
            Err(e) => {
                return Err(e);
            },
        };
        let refresh_token = match self.generate_refresh_token(user_id) {
            Ok(token) => token,
            Err(e) => {
                return Err(e);
            },
        };
        Ok((access_token, refresh_token))
    }

    /// Reads `token` under `secret` as a token of the given purpose.
    fn verify_token(&self, token: &str, secret: &str, purpose: TokenType) -> (read: Result<
        TokenClaims, CoreError>)
        ensures
            match read {
                Ok(claims) => verify_for(token@, secret@, purpose) == Ok::<ClaimsView, JwtError>(
                    claims@,
                ),
                Err(e) => verify_for(token@, secret@, purpose) is Err && e == CoreError::Jwt(
                    verify_for(token@, secret@, purpose)->Err_0,
                ),
            },
    {
        match verify(token, secret) {
            Ok(claims) => {
                if claims.token_type == purpose {
                    Ok(claims)
                } else {
                    Err(CoreError::Jwt(JwtError::InvalidSignature))
                }
            },
            Err(e) => Err(e),
        }
    }

    /// Reads an access token: its form and signature must be good under the
    /// access secret and it must have been issued as an access token.
    /// Whether it has ended plays no part.
    pub fn verify_access_token(&self, token: &str) -> (read: Result<TokenClaims, CoreError>)
        ensures
            match read {
                Ok(claims) => verify_for(token@, self.config.jwt_access_secret@, TokenType::Access)
                    == Ok::<ClaimsView, JwtError>(claims@),
                Err(e) => verify_for(token@, self.config.jwt_access_secret@, TokenType::Access) is Err
                    && e == CoreError::Jwt(
                    verify_for(token@, self.config.jwt_access_secret@, TokenType::Access)->Err_0,
                ),
            },
    {
        self.verify_token(token, self.config.jwt_access_secret.as_str(), TokenType::Access)
    }

    /// Reads a refresh token, under the refresh secret.
    pub fn verify_refresh_token(&self, token: &str) -> (read: Result<TokenClaims, CoreError>)
        ensures
            match read {
                Ok(claims) => verify_for(token@, self.config.jwt_refresh_secret@, TokenType::Refresh)
                    == Ok::<ClaimsView, JwtError>(claims@),
                Err(e) => verify_for(token@, self.config.jwt_refresh_secret@, TokenType::Refresh) is Err
                    && e == CoreError::Jwt(
                    verify_for(token@, self.config.jwt_refresh_secret@, TokenType::Refresh)->Err_0,
                ),
            },
    {
        self.verify_token(token, self.config.jwt_refresh_secret.as_str(), TokenType::Refresh)
    }

    /// Reads a token that confirms an email address, under the secret of
    /// that purpose.
    pub fn verify_email_verification_token(&self, token: &str) -> (read: Result<TokenClaims, CoreError>)
        ensures
            match read {
                Ok(claims) => verify_for(
                    token@,
                    self.config.email_verification_secret@,
                    TokenType::EmailVerification,
                ) == Ok::<ClaimsView, JwtError>(claims@),
                Err(e) => verify_for(
                    token@,
                    self.config.email_verification_secret@,
                    TokenType::EmailVerification,
                ) is Err && e == CoreError::Jwt(
                    verify_for(
                        token@,
                        self.config.email_verification_secret@,
                        TokenType::EmailVerification,
                    )->Err_0,
                ),
            },
    {
        self.verify_token(
            token,
            self.config.email_verification_secret.as_str(),
            TokenType::EmailVerification,
        )
    }

    /// Reads a token that allows a password reset, under the secret of that
    /// purpose.
    pub fn verify_password_reset_token(&self, token: &str) -> (read: Result<TokenClaims, CoreError>)
        ensures
            match read {
                Ok(claims) => verify_for(
                    token@,
                    self.config.password_reset_secret@,
                    TokenType::PasswordReset,
                ) == Ok::<ClaimsView, JwtError>(claims@),
                Err(e) => verify_for(
                    token@,
                    self.config.password_reset_secret@,
                    TokenType::PasswordReset,
                ) is Err && e == CoreError::Jwt(
                    verify_for(
                        token@,
                        self.config.password_reset_secret@,
                        TokenType::PasswordReset,
                    )->Err_0,
                ),
            },
    {
        self.verify_token(
            token,
            self.config.password_reset_secret.as_str(),
            TokenType::PasswordReset,
        )
    }

    /// The session that the store found for a token, if it may be used: a
    /// missing session and a revoked one are refused alike.
    pub fn require_active(found: Option<TokenSession>) -> (live: Result<TokenSession, CoreError>)
        ensures
            match live {
                Ok(session) => found == Some(session) && session.is_active,
                Err(e) => e == invalid_token() && !(found matches Some(s) && s.is_active),
            },
    {
        match found {
            Some(session) => {
                if session.is_active {
                    Ok(session)
                } else {
                    Err(CoreError::Auth(AuthError::InvalidToken))
                }
            },
            None => Err(CoreError::Auth(AuthError::InvalidToken)),
        }
    }

    /// What the store's answer to a lookup comes to for the token that
    /// asked. A store that failed to answer is reported to the caller as it
    /// failed; a missing session and a revoked one refuse the token alike.
    pub fn require_live(answer: Result<Option<TokenSession>, CoreError>) -> (live: Result<
        TokenSession,
        CoreError,
    >)
        ensures
            live == lookup_verdict(answer),
    {
        match answer {
            Ok(found) => Self::require_active(found),
            Err(e) => Err(e),
        }
    }

    /// What an authentication comes to after the store was asked to record
    /// the session as seen: the claims pass, whatever the store answered. A
    /// note of liveness that could not be written never refuses a token that
    /// is otherwise good.
    pub fn after_liveness_write(claims: TokenClaims, written: Result<(), CoreError>) -> (passed:
        Result<TokenClaims, CoreError>)
        ensures
            passed == Ok::<TokenClaims, CoreError>(claims),
    {
        Ok(claims)
    }

    /// What a renewal comes to after the store was asked to give the session
    /// its new token identifiers: the new tokens, if the store wrote them
    /// down. A store that failed is reported as it failed and no token is
    /// handed out: a token that no session owns would authenticate nobody.
    pub fn after_rotation(pair: Reissued, written: Result<(), CoreError>) -> (renewed: Result<
        (String, String),
        CoreError,
    >)
        ensures
            renewed == match written {
                Ok(_) => Ok::<(String, String), CoreError>((pair.access_token, pair.refresh_token)),
                Err(e) => Err::<(String, String), CoreError>(e),
            },
    {
        match written {
            Ok(()) => Ok((pair.access_token, pair.refresh_token)),
            Err(e) => Err(e),
        }
    }

    /// The identifier by which the session of a refresh token is looked up.
    /// Claims without one are refused as invalid: no session can own them.
    pub fn refresh_lookup_key(claims: &TokenClaims) -> (key: Result<String, CoreError>)
        ensures
            match key {
                Ok(jti) => claims@.jti == Some(jti@),
                Err(e) => claims@.jti is None && e == invalid_token(),
            },
    {
        match &claims.jti {
            Some(jti) => Ok(jti.clone()),
            None => Err(CoreError::Auth(AuthError::InvalidToken)),
        }
    }

    /// Lets pass a token whose claims are in force at the second `now`;
    /// claims that have ended are refused as expired.
    pub fn require_in_force(claims: &TokenClaims, now: i64) -> (passed: Result<(), CoreError>)
        ensures
            passed == if claims@.expired_at(now as int) {
                Err::<(), CoreError>(CoreError::Jwt(JwtError::TokenExpired))
            } else {
                Ok::<(), CoreError>(())
            },
    {
        if claims.is_expired_at(now) {
            Err(CoreError::Jwt(JwtError::TokenExpired))
        } else {
            Ok(())
        }
    }

    /// Issues the tokens of a new login and makes the session that owns
    /// them; the session is not yet stored. This never fails.
    pub fn open_session(
        &self,
        user_id: &str,
        email: &str,
        role: &Role,
        device_info: Option<String>,
        custom_scopes: Option<Vec<TokenScope>>,
    ) -> (opened: Result<(String, String, TokenSession), CoreError>)
        requires
            self.config.well_formed(),
        ensures
            opened matches Ok(login) && session_opened(
                self.config,
                login.0@,
                login.1@,
                login.2@,
                user_id@,
                email@,
                *role,
                opt_text(device_info),
                chosen_scopes(custom_scopes, *role),
            ),
    {
        let (access_token, access_claims) = match self.mint_access(
            user_id,
            email,
            role,
            custom_scopes,
        ) {
            Ok(pair) => pair,
            Err(e) => {
                return Err(e);
            },
        };
        let (refresh_token, refresh_claims) = match self.mint_single(
            TokenType::Refresh,
            user_id,
            "",
        ) {
            Ok(pair) => pair,
            Err(e) => {
                return Err(e);
            },
        };
        let access_jti = match &access_claims.jti {
            Some(jti) => jti.clone(),
            None => String::new(),
        };
        let refresh_jti = match &refresh_claims.jti {
            Some(jti) => jti.clone(),
            None => String::new(),
        };
        let mut session = TokenSession::new(user_id.to_owned(), access_jti, refresh_jti);
        session.device_info = device_info;
        assert(issued(access_token@, access_claims@, self.config.jwt_access_secret@) && issued(
            refresh_token@,
            refresh_claims@,
            self.config.jwt_refresh_secret@,
        ));
        Ok((access_token, refresh_token, session))
    }

    /// Opens a session for a login: issues an access token and a refresh
    /// token, and stores a new active session that owns their identifiers.
    /// It fails, with the store unchanged, only where the new session's id
    /// is already taken, which can be only where the store holds a session
    /// with an id of that length: on an empty store it always succeeds. The
    /// new access token authenticates the user at once, unless its
    /// identifier was already the identifier of a stored session.
    pub fn create_session(
        &mut self,
        user_id: &str,
        email: &str,
        role: &Role,
        device_info: Option<String>,
        custom_scopes: Option<Vec<TokenScope>>,
    ) -> (created: Result<(String, String, TokenSession), CoreError>)
        requires
            old(self).well_formed(),
        ensures
            final(self).well_formed(),
            final(self).config == old(self).config,
            match created {
                Ok(login) => {
                    &&& session_opened(
                        old(self).config,
                        login.0@,
                        login.1@,
                        login.2@,
                        user_id@,
                        email@,
                        *role,
                        opt_text(device_info),
                        chosen_scopes(custom_scopes, *role),
                    )
                    &&& !has_match(old(self).token_repo@, SessionKey::Id, login.2@.id)
                    &&& final(self).token_repo@ == old(self).token_repo@.push(login.2@)
                    &&& !has_match(
                        old(self).token_repo@,
                        SessionKey::AccessJti,
                        login.2@.access_token_jti,
                    ) ==> (authorize(
                        verify_for(login.0@, old(self).config.jwt_access_secret@, TokenType::Access),
                        final(self).token_repo@,
                    ) matches Ok(claims) && claims.sub == user_id@)
                },
                Err(e) => {
                    &&& fresh_id_may_be_taken(old(self).token_repo@)
                    &&& final(self).token_repo@ == old(self).token_repo@
                    &&& e matches CoreError::Db(DatabaseError::ConstraintViolation(_))
                },
            },
    {
        let (access_token, refresh_token, session) = match self.open_session(
            user_id,
            email,
            role,
            device_info,
            custom_scopes,
        ) {
            Ok(login) => login,
            Err(e) => {
                return Err(e);
            },
        };
        proof {
            if !has_match(self.token_repo@, SessionKey::AccessJti, session@.access_token_jti) {
                crate::laws::law_new_session_verifies(
                    self.config,
                    self.token_repo@,
                    access_token@,
                    refresh_token@,
                    session@,
                    user_id@,
                    email@,
                    *role,
                    opt_text(device_info),
                    chosen_scopes(custom_scopes, *role),
                );
            }
        }
        let ghost before = self.token_repo@;
        let ghost id = session@.id;
        assert(id.len() == ID_LEN);
        match self.token_repo.create_session(session) {
            Ok(stored) => Ok((access_token, refresh_token, stored)),
            Err(e) => {
                proof {
                    let i = choose|i: int|
                        0 <= i < before.len() && key_text(#[trigger] before[i], SessionKey::Id)
                            == id;
                    assert(before[i].id.len() == ID_LEN);
                }
                Err(e)
            },
        }
    }

    /// Issues a new pair of tokens for the owner of `session`: an access
    /// token with the default scopes of a user, and a refresh token. This
    /// never fails.
    pub fn reissue(&self, session: &TokenSession) -> (made: Result<Reissued, CoreError>)
        requires
            self.config.well_formed(),
        ensures
            made matches Ok(pair) && reissued_for(self.config, pair, session@.user_id),
    {
        let (access_token, access_claims) = match self.mint_access(
            session.user_id.as_str(),
            "",
            &Role::User,
            None,
        ) {
            Ok(pair) => pair,
            Err(e) => {
                return Err(e);
            },
        };
        let (refresh_token, refresh_claims) = match self.mint_single(
            TokenType::Refresh,
            session.user_id.as_str(),
            "",
        ) {
            Ok(pair) => pair,
            Err(e) => {
                return Err(e);
            },
        };
        let access_jti = match &access_claims.jti {
            Some(jti) => jti.clone(),
            None => String::new(),
        };
        let refresh_jti = match &refresh_claims.jti {
            Some(jti) => jti.clone(),
            None => String::new(),
        };
        let pair = Reissued { access_token, refresh_token, access_jti, refresh_jti };
        assert(issued(pair.access_token@, access_claims@, self.config.jwt_access_secret@) && issued(
            pair.refresh_token@,
            refresh_claims@,
            self.config.jwt_refresh_secret@,
        ));
        Ok(pair)
    }

    /// Renews a session at the second `now`. The token must read as a
    /// refresh token, an active session must own its identifier, and it
    /// must not have ended; else the token is refused, nothing is issued and
    /// the store stays as it was. On success the session's owner gets a new pair
    /// of tokens and the session owns their identifiers from then on: the
    /// presented token cannot renew it again.
    pub fn refresh_session_at(&mut self, refresh_token: &str, now: i64) -> (renewed: Result<
        (String, String),
        CoreError,
    >)
        requires
            old(self).well_formed(),
        ensures
            final(self).well_formed(),
            final(self).config == old(self).config,
            refresh_outcome(
                old(self).config,
                old(self).token_repo@,
                final(self).token_repo@,
                refresh_token@,
                now as int,
                renewed,
            ),
    {
        let claims = match self.verify_refresh_token(refresh_token) {
            Ok(claims) => claims,
            Err(e) => {
                return Err(e);
            },
        };
        let jti = match Self::refresh_lookup_key(&claims) {
            Ok(jti) => jti,
            Err(e) => {
                return Err(e);
            },
        };
        let found = self.token_repo.find_by_refresh_token_jti(jti);
        let session = match Self::require_live(found) {
            Ok(session) => session,
            Err(e) => {
                return Err(e);
            },
        };
        match Self::require_in_force(&claims, now) {
            Ok(()) => {},
            Err(e) => {
                return Err(e);
            },
        }
        let pair = match self.reissue(&session) {
            Ok(pair) => pair,
            Err(e) => {
                return Err(e);
            },
        };
        let written = self.token_repo.rotate_session_tokens(
            session.id.clone(),
            pair.access_jti.clone(),
            pair.refresh_jti.clone(),
            now,
        );
        proof {
            assert(reissued_for(old(self).config, pair, session@.user_id));
            assert(self.token_repo@ == rotate(
                old(self).token_repo@,
                session@.id,
                pair.access_jti@,
                pair.refresh_jti@,
                now as int,
            ));
        }
        Self::after_rotation(pair, written)
    }

    /// Renews a session at the clock's current second, whichever second
    /// that is.
    pub fn refresh_session(&mut self, refresh_token: &str) -> (renewed: Result<
        (String, String),
        CoreError,
    >)
        requires
            old(self).well_formed(),
        ensures
            final(self).well_formed(),
            final(self).config == old(self).config,
            exists|now: int|
                is_timestamp(now) && #[trigger] refresh_outcome(
                    old(self).config,
                    old(self).token_repo@,
                    final(self).token_repo@,
                    refresh_token@,
                    now,
                    renewed,
                ),
    {
        let now = unix_now();
        let renewed = self.refresh_session_at(refresh_token, now);
        assert(refresh_outcome(
            old(self).config,
            old(self).token_repo@,
            self.token_repo@,
            refresh_token@,
            now as int,
            renewed,
        ));
        renewed
    }

    /// Asks the store to vouch for access claims: if they carry an
    /// identifier, an active session must own it, else the claims are
    /// refused as an invalid token. On success that session is recorded as
    /// seen at the clock's current second; a refusal leaves the store as it
    /// was.
    pub fn confirm_session(&mut self, claims: TokenClaims) -> (checked: Result<
        TokenClaims,
        CoreError,
    >)
        requires
            old(self).token_repo.well_formed(),
        ensures
            final(self).token_repo.well_formed(),
            final(self).config == old(self).config,
            match checked {
                Ok(kept) => {
                    &&& kept@ == claims@
                    &&& confirm(claims@, old(self).token_repo@) == Ok::<ClaimsView, CoreError>(
                        claims@,
                    )
                    &&& noted_alive(old(self).token_repo@, final(self).token_repo@, claims@.jti)
                },
                Err(e) => {
                    &&& confirm(claims@, old(self).token_repo@) == Err::<ClaimsView, CoreError>(e)
                    &&& final(self).token_repo@ == old(self).token_repo@
                },
            },
    {
        let jti = match &claims.jti {
            Some(jti) => jti.clone(),
            None => {
                return Ok(claims);
            },
        };
        let found = self.token_repo.find_by_access_token_jti(jti);
        let session = match Self::require_live(found) {
            Ok(session) => session,
            Err(e) => {
                return Err(e);
            },
        };
        let ghost before = self.token_repo@;
        let ghost id = session@.id;
        let written = self.token_repo.update_last_active(session.id);
        proof {
            let now = choose|now: int|
                is_timestamp(now) && self.token_repo@ == #[trigger] touch(before, id, now);
            assert(self.token_repo@ == touch(
                before,
                lookup(before, SessionKey::AccessJti, claims@.jti->Some_0)->Some_0.id,
                now,
            ));
        }
        Self::after_liveness_write(claims, written)
    }

    /// Authenticates a presented access token. The token must read as an
    /// access token and, if its claims carry an identifier, an active
    /// session must own that identifier: a token whose session was revoked
    /// is refused though its signature is good. On success the session is
    /// recorded as seen at the clock's current second; a refusal leaves the
    /// store as it was. Whether the claims have ended plays no part.
    pub fn verify_access_token_with_session(&mut self, token: &str) -> (checked: Result<
        TokenClaims,
        CoreError,
    >)
        requires
            old(self).token_repo.well_formed(),
        ensures
            final(self).token_repo.well_formed(),
            final(self).config == old(self).config,
            match checked {
                Ok(claims) => {
                    &&& authorize(
                        verify_for(token@, old(self).config.jwt_access_secret@, TokenType::Access),
                        old(self).token_repo@,
                    ) == Ok::<ClaimsView, CoreError>(claims@)
                    &&& noted_alive(old(self).token_repo@, final(self).token_repo@, claims@.jti)
                },
                Err(e) => {
                    &&& authorize(
                        verify_for(token@, old(self).config.jwt_access_secret@, TokenType::Access),
                        old(self).token_repo@,
                    ) == Err::<ClaimsView, CoreError>(e)
                    &&& final(self).token_repo@ == old(self).token_repo@
                },
            },
    {
        let claims = match self.verify_access_token(token) {
            Ok(claims) => claims,
            Err(e) => {
                return Err(e);
            },
        };
        self.confirm_session(claims)
    }

    /// The token that an `Authorization` header presents: what follows
    /// `Bearer ` in a header that begins so, else nothing.
    pub fn extract_token_from_header(auth_header: &str) -> (token: Option<&str>)
        ensures
            match token {
                Some(t) => bearer_token(auth_header@) == Some(t@),
                None => bearer_token(auth_header@) is None,
            },
    {
        proof {
            reveal_strlit("Bearer ");
        }
        let n = auth_header.unicode_len();
        if n < 7 {
            return None;
        }
        if auth_header.get_char(0) == 'B' && auth_header.get_char(1) == 'e' && auth_header.get_char(
            2,
        ) == 'a' && auth_header.get_char(3) == 'r' && auth_header.get_char(4) == 'e'
            && auth_header.get_char(5) == 'r' && auth_header.get_char(6) == ' ' {
            assert(BEARER_PREFIX@ =~= auth_header@.subrange(0, 7));
            let token = auth_header.substring_char(7, n);
            assert(token@ =~= auth_header@.skip(7));
            Some(token)
        } else {
            assert(BEARER_PREFIX@[0] == 'B' && BEARER_PREFIX@[1] == 'e' && BEARER_PREFIX@[2] == 'a'
                && BEARER_PREFIX@[3] == 'r' && BEARER_PREFIX@[4] == 'e' && BEARER_PREFIX@[5] == 'r'
                && BEARER_PREFIX@[6] == ' ');
            assert(!(BEARER_PREFIX@ =~= auth_header@.subrange(0, 7)));
            None
        }
    }

    /// Revokes the session `session_id`. Revoking twice is the same as
    /// revoking once. This never fails.
    pub fn revoke_session(&mut self, session_id: String) -> (done: Result<(), CoreError>)
        requires
            old(self).token_repo.well_formed(),
        ensures
            done is Ok,
            final(self).token_repo.well_formed(),
            final(self).config == old(self).config,
            final(self).token_repo@ == revoke(old(self).token_repo@, session_id@),
    {
        self.token_repo.revoke_session(session_id)
    }

    /// Revokes every session of `user_id`: afterwards the user has no active
    /// session, and where the user had none before, nothing has changed.
    /// This never fails.
    pub fn revoke_all_user_sessions(&mut self, user_id: String) -> (done: Result<(), CoreError>)
        requires
            old(self).token_repo.well_formed(),
        ensures
            done is Ok,
            final(self).token_repo.well_formed(),
            final(self).config == old(self).config,
            final(self).token_repo@ == revoke_user(old(self).token_repo@, user_id@),
            active_of(final(self).token_repo@, user_id@).len() == 0,
            active_of(old(self).token_repo@, user_id@).len() == 0 ==> final(self).token_repo@ == old(
                self,
            ).token_repo@,
    {
        proof {
            crate::laws::law_bulk_revocation_leaves_none_active(self.token_repo@, user_id@);
        }
        self.token_repo.revoke_all_user_sessions(user_id)
    }

    /// The active sessions of `user_id`, in the order of their creation.
    /// This never fails.
    pub fn get_user_active_sessions(&self, user_id: String) -> (found: Result<
        Vec<TokenSession>,
        CoreError,
    >)
        ensures
            found matches Ok(sessions) && views(sessions@) == active_of(self.token_repo@, user_id@),
    {
        self.token_repo.get_active_sessions_by_user(user_id)
    }

    /// Deletes every session created more than thirty days before the
    /// clock's current second, and says how many it deleted. This never
    /// fails.
    pub fn cleanup_expired_sessions(&mut self) -> (deleted: Result<usize, CoreError>)
        requires
            old(self).token_repo.well_formed(),
        ensures
            final(self).token_repo.well_formed(),
            final(self).config == old(self).config,
            deleted matches Ok(n) && n == old(self).token_repo@.len() - final(self).token_repo@.len(),
            exists|now: int|
                is_timestamp(now) && final(self).token_repo@ == #[trigger] sweep(
                    old(self).token_repo@,
                    now - RETENTION_SECS,
                ),
    {
        self.token_repo.cleanup_expired_sessions()
    }
}

} // verus!
