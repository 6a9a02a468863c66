//! Authorization of requests: who a request's token authenticates, and whether
//! the principal may do what the request asks.

use crate::clock::{is_timestamp, unix_now};
use crate::models::token_claims::{ClaimsView, TokenClaims};
use crate::models::token_scope::TokenScope;
use crate::models::token_session::SessionView;
use crate::models::token_type::TokenType;
use crate::services::token::{bearer_token, confirm, noted_alive, verify_for, TokenService};
use vstd::prelude::*;
use vstd::string::*;

verus! {

/// Why a request was turned away.
#[derive(Debug, Clone, Copy, PartialEq, Eq, Structural)]
pub enum Rejection {
    /// Nobody is authenticated: the request is answered with status 401.
    Unauthorized,
    /// The principal lacks the scope: the request is answered with status
    /// 403.
    Forbidden,
}

impl Rejection {
    /// The HTTP status that answers the request.
    pub fn status_code(&self) -> (code: u16)
        ensures
            code == match self {
                Rejection::Unauthorized => 401u16,
                Rejection::Forbidden => 403u16,
            },
    {
        match self {
            Rejection::Unauthorized => 401,
            Rejection::Forbidden => 403,
        }
    }
}

/// The claims that a request presents at the second `now`: its header
/// must hold a bearer token that reads as an access token and whose claims
/// have not ended. Anything else presents nothing.
pub open spec fn presented(secret: Seq<char>, header: Option<Seq<char>>, now: int) -> Option<
    ClaimsView,
> {
    match header {
        Some(header) => match bearer_token(header) {
            Some(token) => match verify_for(token, secret, TokenType::Access) {
                Ok(claims) => if claims.expired_at(now) {
                    None
                } else {
                    Some(claims)
                },
                Err(_) => None,
            },
            None => None,
        },
        None => None,
    }
}

/// The principal that a request authenticates at the second `now`: the
/// claims that it presents, if the store vouches for them. Anything else
/// authenticates nobody.
pub open spec fn principal(
    secret: Seq<char>,
    sessions: Seq<SessionView>,
    header: Option<Seq<char>>,
    now: int,
) -> Option<ClaimsView> {
    match presented(secret, header, now) {
        Some(claims) => match confirm(claims, sessions) {
            Ok(claims) => Some(claims),
            Err(_) => None,
        },
        None => None,
    }
}

/// The characters of an optional header.
pub open spec fn header_text(header: Option<&str>) -> Option<Seq<char>> {
    match header {
        Some(h) => Some(h@),
        None => None,
    }
}

/// Whether a principal may do what asks for any one of `required`:
/// without a principal nobody is authenticated; a principal that has none
/// of the scopes is forbidden.
pub open spec fn allowed(claims: Option<ClaimsView>, required: Seq<Seq<char>>) -> Result<
    (),
    Rejection,
> {
    match claims {
        Some(claims) => if claims.grants_any(required) {
            Ok(())
        } else {
            Err(Rejection::Forbidden)
        },
        None => Err(Rejection::Unauthorized),
    }
}

/// The three scopes of which an administrator must have one.
pub open spec fn admin_scope_texts() -> Seq<Seq<char>> {
    seq!["admin:read"@, "admin:write"@, "admin:delete"@]
}

/// The claims that a request presents at the second `now`, before the
/// store is asked. A request without a header, without a bearer token, with
/// a token that does not read as an access token, or with claims that have
/// ended is unauthorized.
pub fn presented_claims(token_service: &TokenService, auth_header: Option<&str>, now: i64) -> (claims:
    Result<TokenClaims, Rejection>)
    ensures
        match claims {
            Ok(claims) => presented(
                token_service.config.jwt_access_secret@,
                header_text(auth_header),
                now as int,
            ) == Some(claims@),
            Err(rejection) => rejection == Rejection::Unauthorized && presented(
                token_service.config.jwt_access_secret@,
                header_text(auth_header),
                now as int,
            ) is None,
        },
{
    let header = match auth_header {
        Some(header) => header,
        None => {
            return Err(Rejection::Unauthorized);
        },
    };
    let token = match TokenService::extract_token_from_header(header) {
        Some(token) => token,
        None => {
            return Err(Rejection::Unauthorized);
        },
    };
    let claims = match token_service.verify_access_token(token) {
        Ok(claims) => claims,
        Err(_) => {
            return Err(Rejection::Unauthorized);
        },
    };
    if claims.is_expired_at(now) {
        return Err(Rejection::Unauthorized);
    }
    Ok(claims)
}

/// Authenticates a request at the second `now`. A request that presents no
/// claims, or claims whose session is missing or revoked, is unauthorized,
/// and the store stays as it was. On success the session is recorded as
/// seen.
pub fn auth_middleware_at(token_service: &mut TokenService, auth_header: Option<&str>, now: i64) -> (admitted:
    Result<TokenClaims, Rejection>)
    requires
        old(token_service).token_repo.well_formed(),
    ensures
        final(token_service).token_repo.well_formed(),
        final(token_service).config == old(token_service).config,
        match admitted {
            Ok(claims) => {
                &&& principal(
                    old(token_service).config.jwt_access_secret@,
                    old(token_service).token_repo@,
                    header_text(auth_header),
                    now as int,
                ) == Some(claims@)
                &&& noted_alive(
                    old(token_service).token_repo@,
                    final(token_service).token_repo@,
                    claims@.jti,
                )
            },
            Err(rejection) => {
                &&& rejection == Rejection::Unauthorized
                &&& principal(
                    old(token_service).config.jwt_access_secret@,
                    old(token_service).token_repo@,
                    header_text(auth_header),
                    now as int,
                ) is None
                &&& final(token_service).token_repo@ == old(token_service).token_repo@
            },
        },
{
    let claims = match presented_claims(token_service, auth_header, now) {
        Ok(claims) => claims,
        Err(rejection) => {
            return Err(rejection);
        },
    };
    match token_service.confirm_session(claims) {
        Ok(claims) => Ok(claims),
        Err(_) => Err(Rejection::Unauthorized),
    }
}

/// Authenticates a request at the clock's current second, whichever second
/// that is. A rejection is always `Unauthorized` and leaves the store as it
/// was; on success the session of the token is recorded as seen and the
/// store is otherwise as it was.
pub fn auth_middleware(token_service: &mut TokenService, auth_header: Option<&str>) -> (admitted:
    Result<TokenClaims, Rejection>)
    requires
        old(token_service).token_repo.well_formed(),
    ensures
        final(token_service).token_repo.well_formed(),
        final(token_service).config == old(token_service).config,
        exists|now: int|
            is_timestamp(now) && match admitted {
                Ok(claims) => #[trigger] principal(
                    old(token_service).config.jwt_access_secret@,
                    old(token_service).token_repo@,
                    header_text(auth_header),
                    now,
                ) == Some(claims@),
                Err(rejection) => {
                    &&& rejection == Rejection::Unauthorized
                    &&& principal(
                        old(token_service).config.jwt_access_secret@,
                        old(token_service).token_repo@,
                        header_text(auth_header),
                        now,
                    ) is None
                },
            },
        match admitted {
            Ok(claims) => noted_alive(
                old(token_service).token_repo@,
                final(token_service).token_repo@,
                claims@.jti,
            ),
            Err(_) => final(token_service).token_repo@ == old(token_service).token_repo@,
        },
{
    let now = unix_now();
    let admitted = auth_middleware_at(token_service, auth_header, now);
    proof {
        let header = header_text(auth_header);
        let who = principal(
            old(token_service).config.jwt_access_secret@,
            old(token_service).token_repo@,
            header,
            now as int,
        );
        assert(admitted matches Ok(claims) ==> who == Some(claims@));
        assert(admitted is Err ==> who is None);
    }
    admitted
}

/// Authenticates a request if it can be: a request that authenticates
/// nobody goes on without a principal, and is never an error. With a
/// principal the session of the token is recorded as seen; without one the
/// store stays as it was.
pub fn optional_auth_middleware(token_service: &mut TokenService, auth_header: Option<&str>) -> (who:
    Option<TokenClaims>)
    requires
        old(token_service).token_repo.well_formed(),
    ensures
        final(token_service).token_repo.well_formed(),
        final(token_service).config == old(token_service).config,
        exists|now: int|
            is_timestamp(now) && #[trigger] principal(
                old(token_service).config.jwt_access_secret@,
                old(token_service).token_repo@,
                header_text(auth_header),
                now,
            ) == match who {
                Some(claims) => Some(claims@),
                None => None,
            },
        match who {
            Some(claims) => noted_alive(
                old(token_service).token_repo@,
                final(token_service).token_repo@,
                claims@.jti,
            ),
            None => final(token_service).token_repo@ == old(token_service).token_repo@,
        },
{
    let now = unix_now();
    let admitted = auth_middleware_at(token_service, auth_header, now);
    proof {
        let header = header_text(auth_header);
        let who = principal(
            old(token_service).config.jwt_access_secret@,
            old(token_service).token_repo@,
            header,
            now as int,
        );
        assert(admitted matches Ok(claims) ==> who == Some(claims@));
        assert(admitted is Err ==> who is None);
    }
    match admitted {
        Ok(claims) => Some(claims),
        Err(_) => None,
    }
}

/// The view of optional claims.
pub open spec fn opt_claims(claims: Option<&TokenClaims>) -> Option<ClaimsView> {
    match claims {
        Some(c) => Some(c@),
        None => None,
    }
}

/// Decides on an operation that asks for any one of `required_scopes`.
pub fn require_scopes(claims: Option<&TokenClaims>, required_scopes: &[TokenScope]) -> (passed: Result<
    (),
    Rejection,
>)
    ensures
        passed == allowed(opt_claims(claims), TokenScope::texts(required_scopes@)),
{
    match claims {
        Some(claims) => {
            if claims.has_any_scope(required_scopes) {
                Ok(())
            } else {
                Err(Rejection::Forbidden)
            }
        },
        None => Err(Rejection::Unauthorized),
    }
}

/// Decides on an operation that asks for the one scope `scope`.
fn require_scope(claims: Option<&TokenClaims>, scope: TokenScope) -> (passed: Result<(), Rejection>)
    ensures
        passed == allowed(opt_claims(claims), seq![scope.text()]),
{
    match claims {
        Some(claims) => {
            let granted = claims.has_scope(&scope);
            proof {
                let required = seq![scope.text()];
                if granted {
                    assert(claims@.grants(required[0]));
                } else {
                    assert forall|i: int| 0 <= i < required.len() implies !claims@.grants(
                        #[trigger] required[i],
                    ) by {}
                }
            }
            if granted {
                Ok(())
            } else {
                Err(Rejection::Forbidden)
            }
        },
        None => Err(Rejection::Unauthorized),
    }
}

/// Decides on an operation of administrators: it asks for one of the three `admin`
/// scopes.
pub fn admin_middleware(claims: Option<&TokenClaims>) -> (passed: Result<(), Rejection>)
    ensures
        passed == allowed(opt_claims(claims), admin_scope_texts()),
{
    let mut admin_scopes: Vec<TokenScope> = Vec::new();
    admin_scopes.push(TokenScope::AdminRead);
    admin_scopes.push(TokenScope::AdminWrite);
    admin_scopes.push(TokenScope::AdminDelete);
    assert(TokenScope::texts(admin_scopes@) =~= admin_scope_texts());
    require_scopes(claims, admin_scopes.as_slice())
}

/// Decides on an operation that asks for the scope `read`.
pub fn require_read_scope(claims: Option<&TokenClaims>) -> (passed: Result<(), Rejection>)
    ensures
        passed == allowed(opt_claims(claims), seq!["read"@]),
{
    require_scope(claims, TokenScope::Read)
}

/// Decides on an operation that asks for the scope `write`.
pub fn require_write_scope(claims: Option<&TokenClaims>) -> (passed: Result<(), Rejection>)
    ensures
        passed == allowed(opt_claims(claims), seq!["write"@]),
{
    require_scope(claims, TokenScope::Write)
}

/// Decides on an operation that asks for the scope `delete`.
pub fn require_delete_scope(claims: Option<&TokenClaims>) -> (passed: Result<(), Rejection>)
    ensures
        passed == allowed(opt_claims(claims), seq!["delete"@]),
{
    require_scope(claims, TokenScope::Delete)
}

/// Decides on an operation that asks for the scope `user:read`.
pub fn require_user_read_scope(claims: Option<&TokenClaims>) -> (passed: Result<(), Rejection>)
    ensures
        passed == allowed(opt_claims(claims), seq!["user:read"@]),
{
    require_scope(claims, TokenScope::UserRead)
}

} // verus!
