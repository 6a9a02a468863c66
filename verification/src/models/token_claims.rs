//! The signed payload of a token.

use crate::clock::{is_timestamp, unix_now};
use crate::ids::{fresh_id, ID_LEN};
use crate::json::{duplicate, empty_object, json_of, Json};
use crate::models::role::Role;
use crate::models::token_scope::TokenScope;
use crate::models::token_type::TokenType;
use vstd::prelude::*;
use vstd::string::*;

verus! {

/// The issuer that every token of this authority names.
pub const ISSUER: &'static str = "homeryland-api";

/// The audience that every token of this authority names.
pub const AUDIENCE: &'static str = "homeryland-client";

/// The payload of a token: who it is about, what it is for, when it was
/// issued and when it ends, and what it grants.
#[derive(Debug)]
pub struct TokenClaims {
    pub sub: String,
    pub token_type: TokenType,
    pub iat: i64,
    pub exp: i64,
    pub iss: Option<String>,
    pub aud: Option<String>,
    pub jti: Option<String>,
    pub email: Option<String>,
    pub role: Option<Role>,
    pub scopes: Vec<TokenScope>,
    /// Custom claims: a JSON object, carried as it is.
    pub extra: serde_json::Value,
}

/// Claims as a mathematical value. Scopes stand by their text form.
pub struct ClaimsView {
    pub sub: Seq<char>,
    pub token_type: TokenType,
    pub iat: int,
    pub exp: int,
    pub iss: Option<Seq<char>>,
    pub aud: Option<Seq<char>>,
    pub jti: Option<Seq<char>>,
    pub email: Option<Seq<char>>,
    pub role: Option<Role>,
    pub scopes: Seq<Seq<char>>,
    pub extra: Json,
}

/// The characters of an optional string.
pub open spec fn opt_text(s: Option<String>) -> Option<Seq<char>> {
    match s {
        Some(s) => Some(s@),
        None => None,
    }
}

/// A copy of an optional string.
pub fn clone_opt(s: &Option<String>) -> (copy: Option<String>)
    ensures
        copy == *s,
{
    match s {
        Some(s) => Some(s.clone()),
        None => None,
    }
}

impl ClaimsView {
    /// The invariant of claims: they end after they were issued and carry a
    /// token identifier.
    pub open spec fn well_formed(self) -> bool {
        self.iat < self.exp && self.jti is Some
    }

    /// Whether the claims have ended at the second `now`. Claims are in force
    /// only while `now` is before their end: at the second of their end they
    /// have ended.
    pub open spec fn expired_at(self, now: int) -> bool {
        self.exp <= now
    }

    /// Whether the claims grant the scope written as `scope`.
    pub open spec fn grants(self, scope: Seq<char>) -> bool {
        self.scopes.contains(scope)
    }

    /// Whether the claims grant at least one of the scopes in `required`.
    pub open spec fn grants_any(self, required: Seq<Seq<char>>) -> bool {
        exists|i: int| 0 <= i < required.len() && self.grants(#[trigger] required[i])
    }

    /// Whether the claims grant every scope in `required`.
    pub open spec fn grants_all(self, required: Seq<Seq<char>>) -> bool {
        forall|i: int| 0 <= i < required.len() ==> self.grants(#[trigger] required[i])
    }
}

impl View for TokenClaims {
    type V = ClaimsView;

    open spec fn view(&self) -> ClaimsView {
        ClaimsView {
            sub: self.sub@,
            token_type: self.token_type,
            iat: self.iat as int,
            exp: self.exp as int,
            iss: opt_text(self.iss),
            aud: opt_text(self.aud),
            jti: opt_text(self.jti),
            email: opt_text(self.email),
            role: self.role,
            scopes: TokenScope::texts(self.scopes@),
            extra: json_of(self.extra),
        }
    }
}

/// The scopes that a role has by default, as text.
pub open spec fn default_scope_texts(role: Role) -> Seq<Seq<char>> {
    match role {
        Role::Admin => seq![
            "read"@,
            "write"@,
            "delete"@,
            "user:read"@,
            "user:write"@,
            "user:delete"@,
            "admin:read"@,
            "admin:write"@,
            "admin:delete"@,
        ],
        Role::User => seq!["read"@, "write"@, "user:read"@, "user:write"@],
    }
}

/// Every default scope of a user is a default scope of an administrator.
pub proof fn lemma_admin_scopes_include_user_scopes(scope: Seq<char>)
    requires
        default_scope_texts(Role::User).contains(scope),
    ensures
        default_scope_texts(Role::Admin).contains(scope),
{
    let user = default_scope_texts(Role::User);
    let admin = default_scope_texts(Role::Admin);
    let i = choose|i: int| 0 <= i < user.len() && user[i] == scope;
    if i == 0 {
        assert(admin[0] == scope);
    } else if i == 1 {
        assert(admin[1] == scope);
    } else if i == 2 {
        assert(admin[3] == scope);
    } else {
        assert(admin[4] == scope);
    }
}

impl TokenClaims {
    /// The claims that all four kinds of token share: issuer, audience and a
    /// fresh token identifier.
    fn stamped(
        sub: String,
        token_type: TokenType,
        iat: i64,
        exp: i64,
        email: Option<String>,
        role: Option<Role>,
        scopes: Vec<TokenScope>,
    ) -> (claims: Self)
        ensures
            claims@ == (ClaimsView {
                sub: sub@,
                token_type,
                iat: iat as int,
                exp: exp as int,
                iss: Some(ISSUER@),
                aud: Some(AUDIENCE@),
                jti: claims@.jti,
                email: opt_text(email),
                role,
                scopes: TokenScope::texts(scopes@),
                extra: Json::Object(Map::empty()),
            }),
            claims@.jti matches Some(id) && id.len() == ID_LEN,
            claims.scopes == scopes,
    {
        TokenClaims {
            sub,
            token_type,
            iat,
            exp,
            iss: Some(ISSUER.to_owned()),
            aud: Some(AUDIENCE.to_owned()),
            jti: Some(fresh_id()),
            email,
            role,
            scopes,
            extra: empty_object(),
        }
    }

    /// Claims of an access token for `user_id`, with the given scopes and a
    /// fresh token identifier.
    pub fn new_access_token(
        user_id: String,
        email: String,
        role: Role,
        iat: i64,
        exp: i64,
        scopes: Vec<TokenScope>,
    ) -> (claims: Self)
        ensures
            claims@ == (ClaimsView {
                sub: user_id@,
                token_type: TokenType::Access,
                iat: iat as int,
                exp: exp as int,
                iss: Some(ISSUER@),
                aud: Some(AUDIENCE@),
                jti: claims@.jti,
                email: Some(email@),
                role: Some(role),
                scopes: TokenScope::texts(scopes@),
                extra: Json::Object(Map::empty()),
            }),
            claims@.jti matches Some(id) && id.len() == ID_LEN,
            claims@.well_formed() <==> iat < exp,
    {
        Self::stamped(user_id, TokenType::Access, iat, exp, Some(email), Some(role), scopes)
    }

    /// Claims of a refresh token for `user_id`: they grant the scope
    /// `refresh` alone.
    pub fn new_refresh_token(user_id: String, iat: i64, exp: i64) -> (claims: Self)
        ensures
            claims@ == (ClaimsView {
                sub: user_id@,
                token_type: TokenType::Refresh,
                iat: iat as int,
                exp: exp as int,
                iss: Some(ISSUER@),
                aud: Some(AUDIENCE@),
                jti: claims@.jti,
                email: None,
                role: None,
                scopes: seq!["refresh"@],
                extra: Json::Object(Map::empty()),
            }),
            claims@.jti matches Some(id) && id.len() == ID_LEN,
            claims@.well_formed() <==> iat < exp,
    {
        let mut scopes: Vec<TokenScope> = Vec::new();
        scopes.push(TokenScope::Refresh);
        assert(TokenScope::texts(scopes@) =~= seq!["refresh"@]);
        Self::stamped(user_id, TokenType::Refresh, iat, exp, None, None, scopes)
    }

    /// Claims of a token that confirms an email address: they grant the
    /// scope `email:verify` alone.
    pub fn new_email_verification_token(user_id: String, email: String, iat: i64, exp: i64) -> (claims:
        Self)
        ensures
            claims@ == (ClaimsView {
                sub: user_id@,
                token_type: TokenType::EmailVerification,
                iat: iat as int,
                exp: exp as int,
                iss: Some(ISSUER@),
                aud: Some(AUDIENCE@),
                jti: claims@.jti,
                email: Some(email@),
                role: None,
                scopes: seq!["email:verify"@],
                extra: Json::Object(Map::empty()),
            }),
            claims@.jti matches Some(id) && id.len() == ID_LEN,
            claims@.well_formed() <==> iat < exp,
    {
        let mut scopes: Vec<TokenScope> = Vec::new();
        scopes.push(TokenScope::EmailVerify);
        assert(TokenScope::texts(scopes@) =~= seq!["email:verify"@]);
        Self::stamped(
            user_id,
            TokenType::EmailVerification,
            iat,
            exp,
            Some(email),
            None,
            scopes,
        )
    }

    /// Claims of a token that allows one password reset: they grant the
    /// scope `password:reset` alone.
    pub fn new_password_reset_token(user_id: String, email: String, iat: i64, exp: i64) -> (claims:
        Self)
        ensures
            claims@ == (ClaimsView {
                sub: user_id@,
                token_type: TokenType::PasswordReset,
                iat: iat as int,
                exp: exp as int,
                iss: Some(ISSUER@),
                aud: Some(AUDIENCE@),
                jti: claims@.jti,
                email: Some(email@),
                role: None,
                scopes: seq!["password:reset"@],
                extra: Json::Object(Map::empty()),
            }),
            claims@.jti matches Some(id) && id.len() == ID_LEN,
            claims@.well_formed() <==> iat < exp,
    {
        let mut scopes: Vec<TokenScope> = Vec::new();
        scopes.push(TokenScope::PasswordReset);
        assert(TokenScope::texts(scopes@) =~= seq!["password:reset"@]);
        Self::stamped(user_id, TokenType::PasswordReset, iat, exp, Some(email), None, scopes)
    }

    /// Whether the claims have ended at the second `now`: they have, from the
    /// second of their end on.
    pub fn is_expired_at(&self, now: i64) -> (expired: bool)
        ensures
            expired == self@.expired_at(now as int),
    {
        self.exp <= now
    }

    /// Whether the claims have ended by the clock's current second, whichever
    /// second that is.
    pub fn is_expired(&self) -> (expired: bool)
        ensures
            exists|now: int| is_timestamp(now) && expired == #[trigger] self@.expired_at(now),
    {
        let now = unix_now();
        let expired = self.is_expired_at(now);
        assert(expired == self@.expired_at(now as int));
        expired
    }

    /// Whether the claims grant `scope`.
    pub fn has_scope(&self, scope: &TokenScope) -> (granted: bool)
        ensures
            granted == self@.grants(scope.text()),
    {
        scope.is_in(self.scopes.as_slice())
    }

    /// Whether the claims grant at least one of `scopes`. Of no scopes, none
    /// is granted.
    pub fn has_any_scope(&self, scopes: &[TokenScope]) -> (granted: bool)
        ensures
            granted == self@.grants_any(TokenScope::texts(scopes@)),
    {
        let ghost required = TokenScope::texts(scopes@);
        let mut i: usize = 0;
        while i < scopes.len()
            invariant
                i <= scopes.len(),
                required == TokenScope::texts(scopes@),
                forall|k: int| 0 <= k < i ==> !self@.grants(#[trigger] required[k]),
            decreases scopes.len() - i,
        {
            if scopes[i].is_in(self.scopes.as_slice()) {
                assert(self@.grants(required[i as int]));
                return true;
            }
            i += 1;
        }
        false
    }

    /// Whether the claims grant every one of `scopes`. Of no scopes, all are
    /// granted.
    pub fn has_all_scopes(&self, scopes: &[TokenScope]) -> (granted: bool)
        ensures
            granted == self@.grants_all(TokenScope::texts(scopes@)),
    {
        let ghost required = TokenScope::texts(scopes@);
        let mut i: usize = 0;
        while i < scopes.len()
            invariant
                i <= scopes.len(),
                required == TokenScope::texts(scopes@),
                forall|k: int| 0 <= k < i ==> self@.grants(#[trigger] required[k]),
            decreases scopes.len() - i,
        {
            if !scopes[i].is_in(self.scopes.as_slice()) {
                assert(!self@.grants(required[i as int]));
                return false;
            }
            i += 1;
        }
        true
    }

    /// The scopes that a role has by default: an administrator has every
    /// scope of a user, `delete`, `user:delete` and the three `admin` scopes.
    pub fn default_scopes_for_role(role: &Role) -> (scopes: Vec<TokenScope>)
        ensures
            TokenScope::texts(scopes@) == default_scope_texts(*role),
    {
        let mut scopes: Vec<TokenScope> = Vec::new();
        match role {
            Role::Admin => {
                scopes.push(TokenScope::Read);
                scopes.push(TokenScope::Write);
                scopes.push(TokenScope::Delete);
                scopes.push(TokenScope::UserRead);
                scopes.push(TokenScope::UserWrite);
                scopes.push(TokenScope::UserDelete);
                scopes.push(TokenScope::AdminRead);
                scopes.push(TokenScope::AdminWrite);
                scopes.push(TokenScope::AdminDelete);
            },
            Role::User => {
                scopes.push(TokenScope::Read);
                scopes.push(TokenScope::Write);
                scopes.push(TokenScope::UserRead);
                scopes.push(TokenScope::UserWrite);
            },
        }
        assert(TokenScope::texts(scopes@) =~= default_scope_texts(*role));
        scopes
    }
}

impl Clone for TokenClaims {
    fn clone(&self) -> (copy: Self)
        ensures
            copy@ == self@,
    {
        TokenClaims {
            sub: self.sub.clone(),
            token_type: self.token_type,
            iat: self.iat,
            exp: self.exp,
            iss: clone_opt(&self.iss),
            aud: clone_opt(&self.aud),
            jti: clone_opt(&self.jti),
            email: clone_opt(&self.email),
            role: self.role,
            scopes: TokenScope::clone_list(&self.scopes),
            extra: duplicate(&self.extra),
        }
    }
}

} // verus!
