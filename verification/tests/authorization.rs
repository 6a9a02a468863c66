use homeryland_api::config::token::TokenConfig;
use homeryland_api::middlewares::auth::{
    admin_middleware, auth_middleware, auth_middleware_at, optional_auth_middleware,
    presented_claims, require_delete_scope, require_read_scope, require_scopes, require_user_read_scope,
    require_write_scope, Rejection,
};
use homeryland_api::models::role::Role;
use homeryland_api::models::token_claims::TokenClaims;
use homeryland_api::models::token_scope::TokenScope;
use homeryland_api::services::token::TokenService;

fn service() -> TokenService {
    TokenService::new(TokenConfig::new(
        "access-secret".to_string(),
        "refresh-secret".to_string(),
        "email-secret".to_string(),
        "reset-secret".to_string(),
        900,
        604_800,
        3_600,
    ))
}

fn claims(role: Role) -> TokenClaims {
    TokenClaims::new_access_token(
        "u".to_string(),
        "u@x.io".to_string(),
        role,
        1,
        2,
        TokenClaims::default_scopes_for_role(&role),
    )
}

fn bearer(token: &str) -> String {
    format!("Bearer {}", token)
}

#[test]
fn rejection_statuses() {
    assert_eq!(Rejection::Unauthorized.status_code(), 401);
    assert_eq!(Rejection::Forbidden.status_code(), 403);
}

#[test]
fn request_with_a_live_token_is_authenticated() {
    let mut s = service();
    let (access, _, session) = s.create_session("alice", "a@x.io", &Role::User, None, None).unwrap();
    let who = auth_middleware(&mut s, Some(&bearer(&access))).unwrap();
    assert_eq!(who.sub, "alice");
    assert_eq!(who.jti.as_deref(), Some(session.access_token_jti.as_str()));
}

#[test]
fn request_without_a_usable_header_is_unauthorized() {
    let mut s = service();
    let (access, _, _) = s.create_session("alice", "a@x.io", &Role::User, None, None).unwrap();
    assert_eq!(auth_middleware(&mut s, None).unwrap_err(), Rejection::Unauthorized);
    assert_eq!(auth_middleware(&mut s, Some(&access)).unwrap_err(), Rejection::Unauthorized);
    assert_eq!(auth_middleware(&mut s, Some("Bearer junk")).unwrap_err(), Rejection::Unauthorized);
    assert_eq!(auth_middleware(&mut s, Some("")).unwrap_err(), Rejection::Unauthorized);
    let basic = format!("Basic {}", access);
    assert_eq!(auth_middleware(&mut s, Some(&basic)).unwrap_err(), Rejection::Unauthorized);
}

#[test]
fn request_with_a_refresh_token_is_unauthorized() {
    let mut s = service();
    let (_, refresh, _) = s.create_session("alice", "a@x.io", &Role::User, None, None).unwrap();
    assert_eq!(auth_middleware(&mut s, Some(&bearer(&refresh))).unwrap_err(), Rejection::Unauthorized);
}

#[test]
fn request_with_a_revoked_session_is_unauthorized() {
    let mut s = service();
    let (access, _, session) = s.create_session("alice", "a@x.io", &Role::User, None, None).unwrap();
    s.revoke_session(session.id).unwrap();
    assert_eq!(auth_middleware(&mut s, Some(&bearer(&access))).unwrap_err(), Rejection::Unauthorized);
}

#[test]
fn request_is_unauthorized_from_the_second_its_token_ends() {
    let mut s = service();
    let (access, _, session) = s.create_session("alice", "a@x.io", &Role::User, None, None).unwrap();
    let end = s.verify_access_token(&access).unwrap().exp;
    let header = bearer(&access);
    assert!(auth_middleware_at(&mut s, Some(&header), end - 1).is_ok());
    s.token_repo.update_last_active_at(session.id.clone(), 7).unwrap();
    assert_eq!(auth_middleware_at(&mut s, Some(&header), end).unwrap_err(), Rejection::Unauthorized);
    assert_eq!(
        auth_middleware_at(&mut s, Some(&header), end + 1).unwrap_err(),
        Rejection::Unauthorized
    );
    // a rejected request leaves the session as it was
    assert_eq!(s.token_repo.find_by_id(session.id).unwrap().unwrap().last_active_at, 7);
}

#[test]
fn optional_authentication_is_never_an_error() {
    let mut s = service();
    let (access, _, session) = s.create_session("alice", "a@x.io", &Role::User, None, None).unwrap();
    assert_eq!(optional_auth_middleware(&mut s, Some(&bearer(&access))).unwrap().sub, "alice");
    assert!(optional_auth_middleware(&mut s, None).is_none());
    assert!(optional_auth_middleware(&mut s, Some("Bearer junk")).is_none());
    s.revoke_session(session.id).unwrap();
    assert!(optional_auth_middleware(&mut s, Some(&bearer(&access))).is_none());
}

#[test]
fn scopes_of_any() {
    let user = claims(Role::User);
    assert_eq!(require_scopes(Some(&user), &[TokenScope::Delete, TokenScope::Read]), Ok(()));
    assert_eq!(
        require_scopes(Some(&user), &[TokenScope::Delete, TokenScope::AdminRead]),
        Err(Rejection::Forbidden)
    );
    assert_eq!(require_scopes(Some(&user), &[]), Err(Rejection::Forbidden));
    assert_eq!(require_scopes(None, &[TokenScope::Read]), Err(Rejection::Unauthorized));
    assert_eq!(require_scopes(None, &[]), Err(Rejection::Unauthorized));
}

#[test]
fn admin_operations() {
    assert_eq!(admin_middleware(Some(&claims(Role::Admin))), Ok(()));
    assert_eq!(admin_middleware(Some(&claims(Role::User))), Err(Rejection::Forbidden));
    assert_eq!(admin_middleware(None), Err(Rejection::Unauthorized));
    let mut one = claims(Role::User);
    one.scopes = vec![TokenScope::AdminDelete];
    assert_eq!(admin_middleware(Some(&one)), Ok(()));
}

#[test]
fn single_scope_operations() {
    let user = claims(Role::User);
    let admin = claims(Role::Admin);
    assert_eq!(require_read_scope(Some(&user)), Ok(()));
    assert_eq!(require_write_scope(Some(&user)), Ok(()));
    assert_eq!(require_user_read_scope(Some(&user)), Ok(()));
    assert_eq!(require_delete_scope(Some(&user)), Err(Rejection::Forbidden));
    assert_eq!(require_delete_scope(Some(&admin)), Ok(()));
    let refresh = TokenClaims::new_refresh_token("u".to_string(), 1, 2);
    assert_eq!(require_read_scope(Some(&refresh)), Err(Rejection::Forbidden));
    assert_eq!(require_write_scope(Some(&refresh)), Err(Rejection::Forbidden));
    assert_eq!(require_user_read_scope(Some(&refresh)), Err(Rejection::Forbidden));
    assert_eq!(require_read_scope(None), Err(Rejection::Unauthorized));
    assert_eq!(require_write_scope(None), Err(Rejection::Unauthorized));
    assert_eq!(require_delete_scope(None), Err(Rejection::Unauthorized));
    assert_eq!(require_user_read_scope(None), Err(Rejection::Unauthorized));
}

#[test]
fn claims_that_a_request_presents() {
    let s = service();
    let token = s.generate_access_token("alice", "a@x.io", &Role::User, None).unwrap();
    let end = s.verify_access_token(&token).unwrap().exp;
    let header = bearer(&token);
    // no session is needed to present claims
    assert_eq!(presented_claims(&s, Some(&header), end - 1).unwrap().sub, "alice");
    assert_eq!(presented_claims(&s, Some(&header), end).unwrap_err(), Rejection::Unauthorized);
    assert_eq!(presented_claims(&s, Some(&token), 0).unwrap_err(), Rejection::Unauthorized);
    assert_eq!(presented_claims(&s, None, 0).unwrap_err(), Rejection::Unauthorized);
    let refresh = bearer(&s.generate_refresh_token("alice").unwrap());
    assert_eq!(presented_claims(&s, Some(&refresh), 0).unwrap_err(), Rejection::Unauthorized);
}
