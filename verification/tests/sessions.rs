use homeryland_api::config::token::TokenConfig;
use homeryland_api::database::token::{TokenRepository, RETENTION_SECS};
use homeryland_api::errors::auth::AuthError;
use homeryland_api::errors::db::DatabaseError;
use homeryland_api::errors::error::CoreError;
use homeryland_api::errors::jwt::JwtError;
use homeryland_api::models::role::Role;
use homeryland_api::models::token_scope::TokenScope;
use homeryland_api::models::token_session::TokenSession;
use homeryland_api::models::token_type::TokenType;
use homeryland_api::services::token::TokenService;

fn config() -> TokenConfig {
    TokenConfig::new(
        "access-secret".to_string(),
        "refresh-secret".to_string(),
        "email-secret".to_string(),
        "reset-secret".to_string(),
        900,
        604_800,
        3_600,
    )
}

fn service() -> TokenService {
    TokenService::new(config())
}

fn session(id: &str, user: &str, access: &str, refresh: &str, now: i64) -> TokenSession {
    TokenSession::new_at(
        id.to_string(),
        user.to_string(),
        access.to_string(),
        refresh.to_string(),
        now,
    )
}

fn store() -> TokenRepository {
    let mut repo = TokenRepository::new();
    repo.create_session(session("s1", "alice", "a1", "r1", 100)).unwrap();
    repo.create_session(session("s2", "alice", "a2", "r2", 200)).unwrap();
    repo.create_session(session("s3", "bob", "a3", "r3", 300)).unwrap();
    repo
}

fn texts(scopes: &[TokenScope]) -> Vec<String> {
    scopes.iter().map(|s| s.to_str()).collect()
}

fn now() -> i64 {
    chrono::Utc::now().timestamp()
}

#[test]
fn new_session_is_active_and_fresh() {
    let s = TokenSession::new("alice".to_string(), "a".to_string(), "r".to_string());
    assert_eq!(s.user_id, "alice");
    assert_eq!(s.access_token_jti, "a");
    assert_eq!(s.refresh_token_jti, "r");
    assert!(s.is_active);
    assert_eq!(s.created_at, s.last_active_at);
    assert!((s.created_at - now()).abs() <= 5);
    assert_eq!(s.id.len(), 36);
    assert_eq!((s.device_info, s.ip_address, s.location), (None, None, None));
    let t = TokenSession::new("alice".to_string(), "a".to_string(), "r".to_string());
    assert_ne!(t.id, s.id);
}

#[test]
fn session_made_at_a_given_second() {
    let s = session("s1", "alice", "a1", "r1", 42);
    assert_eq!(s.id, "s1");
    assert_eq!((s.created_at, s.last_active_at), (42, 42));
    assert!(s.is_active);
}

#[test]
fn store_starts_empty() {
    let repo = TokenRepository::new();
    assert_eq!(repo.len(), 0);
    assert_eq!(repo.find_by_id("s1".to_string()).unwrap().map(|s| s.id), None);
    assert!(!repo.is_session_active("s1".to_string()).unwrap());
}

#[test]
fn create_stores_and_returns_the_session() {
    let mut repo = TokenRepository::new();
    let stored = repo.create_session(session("s1", "alice", "a1", "r1", 100)).unwrap();
    assert_eq!(stored.id, "s1");
    assert_eq!(repo.len(), 1);
    assert_eq!(repo.find_by_id("s1".to_string()).unwrap().unwrap().user_id, "alice");
}

#[test]
fn create_refuses_a_taken_id() {
    let mut repo = store();
    let refused = repo.create_session(session("s2", "carol", "a9", "r9", 900)).unwrap_err();
    assert!(matches!(refused, CoreError::Db(DatabaseError::ConstraintViolation(_))));
    assert_eq!(repo.len(), 3);
    assert_eq!(repo.find_by_id("s2".to_string()).unwrap().unwrap().user_id, "alice");
    assert!(repo.find_by_access_token_jti("a9".to_string()).unwrap().is_none());
}

#[test]
fn lookups_by_either_token_identifier() {
    let repo = store();
    assert_eq!(repo.find_by_access_token_jti("a2".to_string()).unwrap().unwrap().id, "s2");
    assert_eq!(repo.find_by_refresh_token_jti("r3".to_string()).unwrap().unwrap().id, "s3");
    assert!(repo.find_by_access_token_jti("r2".to_string()).unwrap().is_none());
    assert!(repo.find_by_refresh_token_jti("a3".to_string()).unwrap().is_none());
    assert!(repo.find_by_access_token_jti("".to_string()).unwrap().is_none());
}

#[test]
fn lookup_finds_the_first_of_duplicates() {
    let mut repo = store();
    repo.create_session(session("s4", "dave", "a1", "r1", 400)).unwrap();
    assert_eq!(repo.find_by_access_token_jti("a1".to_string()).unwrap().unwrap().id, "s1");
    assert_eq!(repo.find_by_refresh_token_jti("r1".to_string()).unwrap().unwrap().id, "s1");
}

#[test]
fn revoke_is_idempotent_and_touches_one_session() {
    let mut repo = store();
    assert!(repo.is_session_active("s1".to_string()).unwrap());
    repo.revoke_session("s1".to_string()).unwrap();
    assert!(!repo.is_session_active("s1".to_string()).unwrap());
    assert!(repo.is_session_active("s2".to_string()).unwrap());
    repo.revoke_session("s1".to_string()).unwrap();
    assert!(!repo.is_session_active("s1".to_string()).unwrap());
    assert_eq!(repo.len(), 3);
    repo.revoke_session("missing".to_string()).unwrap();
    assert_eq!(repo.len(), 3);
    let s1 = repo.find_by_id("s1".to_string()).unwrap().unwrap();
    assert_eq!((s1.access_token_jti.as_str(), s1.created_at, s1.last_active_at), ("a1", 100, 100));
}

#[test]
fn revoke_all_for_a_user() {
    let mut repo = store();
    assert_eq!(repo.get_active_sessions_by_user("alice".to_string()).unwrap().len(), 2);
    repo.revoke_all_user_sessions("alice".to_string()).unwrap();
    assert_eq!(repo.get_active_sessions_by_user("alice".to_string()).unwrap().len(), 0);
    assert_eq!(repo.get_active_sessions_by_user("bob".to_string()).unwrap().len(), 1);
    assert_eq!(repo.len(), 3);
    // a user without active sessions: nothing changes, no error
    repo.revoke_all_user_sessions("alice".to_string()).unwrap();
    repo.revoke_all_user_sessions("nobody".to_string()).unwrap();
    assert_eq!(repo.get_active_sessions_by_user("bob".to_string()).unwrap().len(), 1);
    assert!(!repo.is_session_active("s2".to_string()).unwrap());
}

#[test]
fn active_sessions_in_order_of_creation() {
    let mut repo = store();
    let ids: Vec<String> = repo
        .get_active_sessions_by_user("alice".to_string())
        .unwrap()
        .into_iter()
        .map(|s| s.id)
        .collect();
    assert_eq!(ids, vec!["s1", "s2"]);
    repo.revoke_session("s1".to_string()).unwrap();
    let ids: Vec<String> = repo
        .get_active_sessions_by_user("alice".to_string())
        .unwrap()
        .into_iter()
        .map(|s| s.id)
        .collect();
    assert_eq!(ids, vec!["s2"]);
}

#[test]
fn touch_updates_only_liveness() {
    let mut repo = store();
    repo.update_last_active_at("s2".to_string(), 777).unwrap();
    let s2 = repo.find_by_id("s2".to_string()).unwrap().unwrap();
    assert_eq!((s2.created_at, s2.last_active_at, s2.is_active), (200, 777, true));
    assert_eq!(repo.find_by_id("s1".to_string()).unwrap().unwrap().last_active_at, 100);
    repo.update_last_active_at("missing".to_string(), 5).unwrap();
    repo.update_last_active("s1".to_string()).unwrap();
    let seen = repo.find_by_id("s1".to_string()).unwrap().unwrap().last_active_at;
    assert!((seen - now()).abs() <= 5);
}

#[test]
fn touch_does_not_revive_a_revoked_session() {
    let mut repo = store();
    repo.revoke_session("s1".to_string()).unwrap();
    repo.update_last_active_at("s1".to_string(), 999).unwrap();
    repo.rotate_session_tokens("s1".to_string(), "x".to_string(), "y".to_string(), 1000).unwrap();
    assert!(!repo.is_session_active("s1".to_string()).unwrap());
}

#[test]
fn rotation_replaces_both_identifiers() {
    let mut repo = store();
    repo.rotate_session_tokens("s1".to_string(), "a1b".to_string(), "r1b".to_string(), 555).unwrap();
    assert!(repo.find_by_access_token_jti("a1".to_string()).unwrap().is_none());
    assert!(repo.find_by_refresh_token_jti("r1".to_string()).unwrap().is_none());
    let s = repo.find_by_refresh_token_jti("r1b".to_string()).unwrap().unwrap();
    assert_eq!(s.id, "s1");
    assert_eq!(s.access_token_jti, "a1b");
    assert_eq!((s.created_at, s.last_active_at, s.is_active), (100, 555, true));
    assert_eq!(repo.find_by_access_token_jti("a2".to_string()).unwrap().unwrap().id, "s2");
}

#[test]
fn sweep_deletes_sessions_created_before_the_horizon() {
    let mut repo = store();
    // horizon 250: sessions created at 100 and 200 go, the one at 300 stays
    assert_eq!(repo.sweep_expired(1250, 1000), 2);
    assert_eq!(repo.len(), 1);
    assert!(repo.find_by_id("s3".to_string()).unwrap().is_some());
    assert!(repo.find_by_id("s1".to_string()).unwrap().is_none());
    assert_eq!(repo.sweep_expired(1250, 1000), 0);
}

#[test]
fn sweep_keeps_a_session_created_at_the_horizon() {
    let mut repo = store();
    assert_eq!(repo.sweep_expired(1200, 1000), 1);
    assert!(repo.find_by_id("s2".to_string()).unwrap().is_some());
    assert_eq!(repo.sweep_expired(i64::MIN, i64::MAX), 0);
    assert_eq!(repo.sweep_expired(i64::MAX, i64::MIN), 2);
    assert_eq!(repo.len(), 0);
}

#[test]
fn cleanup_uses_a_horizon_of_thirty_days() {
    assert_eq!(RETENTION_SECS, 30 * 24 * 60 * 60);
    let mut repo = TokenRepository::new();
    let t = now();
    repo.create_session(session("old", "alice", "a1", "r1", t - RETENTION_SECS - 100)).unwrap();
    repo.create_session(session("new", "alice", "a2", "r2", t - RETENTION_SECS + 100)).unwrap();
    assert_eq!(repo.cleanup_expired_sessions().unwrap(), 1);
    assert!(repo.find_by_id("old".to_string()).unwrap().is_none());
    assert!(repo.find_by_id("new".to_string()).unwrap().is_some());
}

#[test]
fn config_validity() {
    assert!(config().is_well_formed());
    let mut c = config();
    c.access_token_expires_in = 0;
    assert!(!c.is_well_formed());
    c.access_token_expires_in = 9_223_372_036_854_775;
    assert!(c.is_well_formed());
    c.access_token_expires_in = 9_223_372_036_854_776;
    assert!(!c.is_well_formed());
    c.access_token_expires_in = 1;
    c.refresh_token_expires_in = -1;
    assert!(!c.is_well_formed());
}

#[test]
fn secrets_by_purpose() {
    let c = config();
    assert_eq!(c.secret_for(TokenType::Access), Some("access-secret"));
    assert_eq!(c.secret_for(TokenType::Refresh), Some("refresh-secret"));
    assert_eq!(c.secret_for(TokenType::EmailVerification), Some("email-secret"));
    assert_eq!(c.secret_for(TokenType::PasswordReset), Some("reset-secret"));
    assert_eq!(c.secret_for(TokenType::Invitation), None);
}

#[test]
fn access_token_lasts_the_configured_time() {
    let s = service();
    let t = now();
    let token = s.generate_access_token("alice", "a@x.io", &Role::User, None).unwrap();
    let c = s.verify_access_token(&token).unwrap();
    assert_eq!(c.sub, "alice");
    assert_eq!(c.email.as_deref(), Some("a@x.io"));
    assert_eq!(c.role, Some(Role::User));
    assert_eq!(c.exp - c.iat, 900);
    assert!((c.iat - t).abs() <= 5);
    assert_eq!(c.token_type, TokenType::Access);
}

#[test]
fn login_of_a_user_carries_the_user_scopes() {
    let mut s = service();
    let (access, _, _) = s.create_session("alice", "alice@x.io", &Role::User, None, None).unwrap();
    let c = s.verify_access_token(&access).unwrap();
    assert_eq!(texts(&c.scopes), vec!["read", "write", "user:read", "user:write"]);
}

#[test]
fn login_of_an_admin_carries_the_admin_scopes() {
    let mut s = service();
    let (access, _, _) = s.create_session("root", "root@x.io", &Role::Admin, None, None).unwrap();
    let c = s.verify_access_token(&access).unwrap();
    assert_eq!(c.scopes.len(), 9);
    for scope in ["admin:read", "admin:write", "admin:delete"] {
        assert!(c.has_scope(&TokenScope::parse(scope)));
    }
}

#[test]
fn custom_scopes_override_the_defaults() {
    let s = service();
    let token = s
        .generate_access_token("alice", "a@x.io", &Role::Admin, Some(vec![TokenScope::Read]))
        .unwrap();
    assert_eq!(texts(&s.verify_access_token(&token).unwrap().scopes), vec!["read"]);
    let token = s.generate_access_token("alice", "a@x.io", &Role::Admin, Some(vec![])).unwrap();
    assert!(s.verify_access_token(&token).unwrap().scopes.is_empty());
}

#[test]
fn single_purpose_tokens_and_their_lifetimes() {
    let s = service();
    let r = s.verify_refresh_token(&s.generate_refresh_token("alice").unwrap()).unwrap();
    assert_eq!(r.exp - r.iat, 604_800);
    assert_eq!(texts(&r.scopes), vec!["refresh"]);
    let e = s
        .verify_email_verification_token(
            &s.generate_email_verification_token("alice", "a@x.io").unwrap(),
        )
        .unwrap();
    assert_eq!(e.exp - e.iat, 24 * 60 * 60);
    assert_eq!(e.email.as_deref(), Some("a@x.io"));
    assert_eq!(texts(&e.scopes), vec!["email:verify"]);
    let p = s
        .verify_password_reset_token(&s.generate_password_reset_token("alice", "a@x.io").unwrap())
        .unwrap();
    assert_eq!(p.exp - p.iat, 60 * 60);
    assert_eq!(texts(&p.scopes), vec!["password:reset"]);
    for c in [r, e, p] {
        assert_eq!(c.sub, "alice");
        assert_eq!(c.role, None);
    }
}

#[test]
fn token_pair() {
    let s = service();
    let (access, refresh) = s.generate_token_pair("alice", "a@x.io", &Role::User, None).unwrap();
    assert_eq!(s.verify_access_token(&access).unwrap().sub, "alice");
    assert_eq!(s.verify_refresh_token(&refresh).unwrap().sub, "alice");
}

#[test]
fn wrong_purpose_is_an_invalid_signature() {
    let s = service();
    let access = s.generate_access_token("alice", "a@x.io", &Role::User, None).unwrap();
    let refresh = s.generate_refresh_token("alice").unwrap();
    let email = s.generate_email_verification_token("alice", "a@x.io").unwrap();
    let reset = s.generate_password_reset_token("alice", "a@x.io").unwrap();
    let refused = CoreError::Jwt(JwtError::InvalidSignature);
    assert_eq!(s.verify_refresh_token(&access).unwrap_err(), refused);
    assert_eq!(s.verify_email_verification_token(&access).unwrap_err(), refused);
    assert_eq!(s.verify_password_reset_token(&access).unwrap_err(), refused);
    assert_eq!(s.verify_access_token(&refresh).unwrap_err(), refused);
    assert_eq!(s.verify_access_token(&email).unwrap_err(), refused);
    assert_eq!(s.verify_access_token(&reset).unwrap_err(), refused);
    assert_eq!(s.verify_password_reset_token(&email).unwrap_err(), refused);
    assert_eq!(s.verify_email_verification_token(&reset).unwrap_err(), refused);
}

#[test]
fn wrong_purpose_is_refused_even_under_one_shared_secret() {
    let shared = TokenConfig::new(
        "same".to_string(),
        "same".to_string(),
        "same".to_string(),
        "same".to_string(),
        900,
        900,
        0,
    );
    let s = TokenService::new(shared);
    let access = s.generate_access_token("alice", "a@x.io", &Role::User, None).unwrap();
    let refresh = s.generate_refresh_token("alice").unwrap();
    let refused = CoreError::Jwt(JwtError::InvalidSignature);
    assert_eq!(s.verify_refresh_token(&access).unwrap_err(), refused);
    assert_eq!(s.verify_access_token(&refresh).unwrap_err(), refused);
    assert!(s.verify_access_token(&access).is_ok());
}

#[test]
fn new_session_verifies_at_once() {
    let mut s = service();
    let (access, refresh, session) = s
        .create_session("alice", "alice@x.io", &Role::User, Some("laptop".to_string()), None)
        .unwrap();
    assert_eq!(session.user_id, "alice");
    assert!(session.is_active);
    assert_eq!(session.device_info.as_deref(), Some("laptop"));
    assert_eq!(s.token_repo.len(), 1);
    let claims = s.verify_access_token_with_session(&access).unwrap();
    assert_eq!(claims.sub, "alice");
    assert_eq!(claims.jti.as_deref(), Some(session.access_token_jti.as_str()));
    let refresh_claims = s.verify_refresh_token(&refresh).unwrap();
    assert_eq!(refresh_claims.jti.as_deref(), Some(session.refresh_token_jti.as_str()));
    assert_ne!(session.access_token_jti, session.refresh_token_jti);
}

#[test]
fn open_session_does_not_store() {
    let s = service();
    let (access, _, session) = s.open_session("alice", "a@x.io", &Role::User, None, None).unwrap();
    assert_eq!(s.token_repo.len(), 0);
    assert_eq!(
        s.verify_access_token(&access).unwrap().jti.as_deref(),
        Some(session.access_token_jti.as_str())
    );
}

#[test]
fn revoked_session_refuses_its_access_token() {
    let mut s = service();
    let (access, _, session) = s.create_session("alice", "a@x.io", &Role::User, None, None).unwrap();
    assert!(s.verify_access_token_with_session(&access).is_ok());
    s.revoke_session(session.id.clone()).unwrap();
    assert_eq!(
        s.verify_access_token_with_session(&access).unwrap_err(),
        CoreError::Auth(AuthError::InvalidToken)
    );
    // the signature alone is as good as before
    assert!(s.verify_access_token(&access).is_ok());
}

#[test]
fn token_without_a_session_is_refused() {
    let mut s = service();
    let access = s.generate_access_token("alice", "a@x.io", &Role::User, None).unwrap();
    assert_eq!(
        s.verify_access_token_with_session(&access).unwrap_err(),
        CoreError::Auth(AuthError::InvalidToken)
    );
    assert_eq!(
        s.verify_access_token_with_session("junk").unwrap_err(),
        CoreError::Jwt(JwtError::InvalidToken)
    );
}

#[test]
fn verification_records_liveness() {
    let mut s = service();
    let (access, _, session) = s.create_session("alice", "a@x.io", &Role::User, None, None).unwrap();
    s.token_repo.update_last_active_at(session.id.clone(), 5).unwrap();
    s.verify_access_token_with_session(&access).unwrap();
    let seen = s.token_repo.find_by_id(session.id).unwrap().unwrap().last_active_at;
    assert!((seen - now()).abs() <= 5);
}

#[test]
fn revoke_all_leaves_no_active_session() {
    let mut s = service();
    let (a1, _, _) = s.create_session("alice", "a@x.io", &Role::User, None, None).unwrap();
    let (a2, _, _) = s.create_session("alice", "a@x.io", &Role::User, None, None).unwrap();
    let (b1, _, _) = s.create_session("bob", "b@x.io", &Role::User, None, None).unwrap();
    assert_eq!(s.get_user_active_sessions("alice".to_string()).unwrap().len(), 2);
    s.revoke_all_user_sessions("alice".to_string()).unwrap();
    assert_eq!(s.get_user_active_sessions("alice".to_string()).unwrap().len(), 0);
    assert!(s.verify_access_token_with_session(&a1).is_err());
    assert!(s.verify_access_token_with_session(&a2).is_err());
    assert!(s.verify_access_token_with_session(&b1).is_ok());
    s.revoke_all_user_sessions("alice".to_string()).unwrap();
    s.revoke_all_user_sessions("carol".to_string()).unwrap();
    assert_eq!(s.get_user_active_sessions("bob".to_string()).unwrap().len(), 1);
    assert_eq!(s.token_repo.len(), 3);
}

#[test]
fn refresh_renews_the_session() {
    let mut s = service();
    let (access, refresh, session) =
        s.create_session("alice", "a@x.io", &Role::Admin, None, None).unwrap();
    let (new_access, new_refresh) = s.refresh_session(&refresh).unwrap();
    assert_ne!(new_access, access);
    assert_ne!(new_refresh, refresh);
    let claims = s.verify_access_token_with_session(&new_access).unwrap();
    assert_eq!(claims.sub, "alice");
    assert_eq!(claims.email.as_deref(), Some(""));
    assert_eq!(claims.role, Some(Role::User));
    assert_eq!(texts(&claims.scopes), vec!["read", "write", "user:read", "user:write"]);
    // the session is the same one, with new identifiers
    assert_eq!(s.token_repo.len(), 1);
    let stored = s.token_repo.find_by_id(session.id.clone()).unwrap().unwrap();
    assert!(stored.is_active);
    assert_eq!(Some(stored.access_token_jti.as_str()), claims.jti.as_deref());
    assert_ne!(stored.refresh_token_jti, session.refresh_token_jti);
    // the former access token no longer finds a session
    assert_eq!(
        s.verify_access_token_with_session(&access).unwrap_err(),
        CoreError::Auth(AuthError::InvalidToken)
    );
}

#[test]
fn refresh_token_renews_only_once() {
    let mut s = service();
    let (_, refresh, _) = s.create_session("alice", "a@x.io", &Role::User, None, None).unwrap();
    let first = s.refresh_session(&refresh);
    let second = s.refresh_session(&refresh);
    assert!(first.is_ok());
    assert_eq!(second.unwrap_err(), CoreError::Auth(AuthError::InvalidToken));
    // the winner's tokens are good, and renew again
    let (access, next_refresh) = first.unwrap();
    assert!(s.verify_access_token_with_session(&access).is_ok());
    assert!(s.refresh_session(&next_refresh).is_ok());
    assert_eq!(s.get_user_active_sessions("alice".to_string()).unwrap().len(), 1);
}

#[test]
fn refresh_of_a_revoked_session_issues_nothing() {
    let mut s = service();
    let (_, refresh, session) = s.create_session("alice", "a@x.io", &Role::User, None, None).unwrap();
    s.revoke_session(session.id.clone()).unwrap();
    assert_eq!(s.refresh_session(&refresh).unwrap_err(), CoreError::Auth(AuthError::InvalidToken));
    let stored = s.token_repo.find_by_id(session.id).unwrap().unwrap();
    assert!(!stored.is_active);
    assert_eq!(stored.refresh_token_jti, session.refresh_token_jti);
    assert_eq!(stored.last_active_at, session.last_active_at);
    // the token itself still reads
    assert!(s.verify_refresh_token(&refresh).is_ok());
}

#[test]
fn refresh_refuses_other_tokens() {
    let mut s = service();
    let (access, _, _) = s.create_session("alice", "a@x.io", &Role::User, None, None).unwrap();
    assert_eq!(s.refresh_session(&access).unwrap_err(), CoreError::Jwt(JwtError::InvalidSignature));
    assert_eq!(s.refresh_session("junk").unwrap_err(), CoreError::Jwt(JwtError::InvalidToken));
    let stray = s.generate_refresh_token("alice").unwrap();
    assert_eq!(s.refresh_session(&stray).unwrap_err(), CoreError::Auth(AuthError::InvalidToken));
    assert_eq!(s.token_repo.len(), 1);
}

#[test]
fn revoke_session_twice_is_no_error() {
    let mut s = service();
    let (_, _, session) = s.create_session("alice", "a@x.io", &Role::User, None, None).unwrap();
    assert!(s.revoke_session(session.id.clone()).is_ok());
    assert!(s.revoke_session(session.id.clone()).is_ok());
    assert!(s.revoke_session("missing".to_string()).is_ok());
    assert!(!s.token_repo.is_session_active(session.id).unwrap());
}

#[test]
fn cleanup_counts_what_it_deletes() {
    let mut s = service();
    s.create_session("alice", "a@x.io", &Role::User, None, None).unwrap();
    s.token_repo.create_session(session("old", "alice", "a", "r", 0)).unwrap();
    assert_eq!(s.cleanup_expired_sessions().unwrap(), 1);
    assert_eq!(s.cleanup_expired_sessions().unwrap(), 0);
    assert_eq!(s.token_repo.len(), 1);
}

#[test]
fn require_active_decides_on_what_the_store_found() {
    let live = session("s1", "alice", "a", "r", 1);
    assert_eq!(TokenService::require_active(Some(live.clone())).unwrap().id, "s1");
    let mut dead = live;
    dead.is_active = false;
    assert_eq!(
        TokenService::require_active(Some(dead)).unwrap_err(),
        CoreError::Auth(AuthError::InvalidToken)
    );
    assert_eq!(
        TokenService::require_active(None).unwrap_err(),
        CoreError::Auth(AuthError::InvalidToken)
    );
}

#[test]
fn reissue_makes_tokens_of_a_user() {
    let s = service();
    let pair = s.reissue(&session("s1", "alice", "a", "r", 1)).unwrap();
    let access = s.verify_access_token(&pair.access_token).unwrap();
    let refresh = s.verify_refresh_token(&pair.refresh_token).unwrap();
    assert_eq!(access.jti.as_deref(), Some(pair.access_jti.as_str()));
    assert_eq!(refresh.jti.as_deref(), Some(pair.refresh_jti.as_str()));
    assert_eq!((access.sub.as_str(), refresh.sub.as_str()), ("alice", "alice"));
    assert_eq!(access.role, Some(Role::User));
}

#[test]
fn bearer_header() {
    assert_eq!(TokenService::extract_token_from_header("Bearer abc.def"), Some("abc.def"));
    assert_eq!(TokenService::extract_token_from_header("Bearer "), Some(""));
    assert_eq!(TokenService::extract_token_from_header("Bearer  x"), Some(" x"));
    assert_eq!(TokenService::extract_token_from_header("Bearer a\u{e9}\u{4e2d}"), Some("a\u{e9}\u{4e2d}"));
    assert_eq!(TokenService::extract_token_from_header("Bearer"), None);
    assert_eq!(TokenService::extract_token_from_header("bearer abc"), None);
    assert_eq!(TokenService::extract_token_from_header("Basic abc"), None);
    assert_eq!(TokenService::extract_token_from_header(" Bearer abc"), None);
    assert_eq!(TokenService::extract_token_from_header(""), None);
    assert_eq!(TokenService::extract_token_from_header("\u{e9}earer abc"), None);
}

#[test]
fn refresh_token_ends_at_the_second_of_its_end() {
    let mut s = service();
    let (_, refresh, session) = s.create_session("alice", "a@x.io", &Role::User, None, None).unwrap();
    let end = s.verify_refresh_token(&refresh).unwrap().exp;
    let expired = CoreError::Jwt(JwtError::TokenExpired);
    assert_eq!(s.refresh_session_at(&refresh, end).unwrap_err(), expired);
    assert_eq!(s.refresh_session_at(&refresh, end + 1).unwrap_err(), expired);
    let stored = s.token_repo.find_by_id(session.id.clone()).unwrap().unwrap();
    assert_eq!(stored.refresh_token_jti, session.refresh_token_jti);
    let (access, _) = s.refresh_session_at(&refresh, end - 1).unwrap();
    assert_eq!(s.token_repo.find_by_id(session.id).unwrap().unwrap().last_active_at, end - 1);
    assert!(s.verify_access_token_with_session(&access).is_ok());
}

#[test]
fn lookup_key_of_a_refresh_token() {
    let claims = homeryland_api::models::token_claims::TokenClaims::new_refresh_token(
        "u".to_string(),
        10,
        20,
    );
    assert_eq!(TokenService::refresh_lookup_key(&claims).ok(), claims.jti.clone());
    let mut bare = claims.clone();
    bare.jti = None;
    assert_eq!(
        TokenService::refresh_lookup_key(&bare).unwrap_err(),
        CoreError::Auth(AuthError::InvalidToken)
    );
    assert_eq!(TokenService::require_in_force(&claims, 19), Ok(()));
    assert_eq!(
        TokenService::require_in_force(&claims, 20),
        Err(CoreError::Jwt(JwtError::TokenExpired))
    );
    assert_eq!(
        TokenService::require_in_force(&claims, 21),
        Err(CoreError::Jwt(JwtError::TokenExpired))
    );
}

#[test]
fn refresh_of_a_revoked_session_is_invalid_even_after_the_token_ended() {
    let mut s = service();
    let (_, refresh, session) = s.create_session("alice", "a@x.io", &Role::User, None, None).unwrap();
    let end = s.verify_refresh_token(&refresh).unwrap().exp;
    s.revoke_session(session.id).unwrap();
    let invalid = CoreError::Auth(AuthError::InvalidToken);
    assert_eq!(s.refresh_session_at(&refresh, end - 1).unwrap_err(), invalid);
    assert_eq!(s.refresh_session_at(&refresh, end).unwrap_err(), invalid);
    assert_eq!(s.refresh_session_at(&refresh, end + 100).unwrap_err(), invalid);
}

#[test]
fn first_session_of_an_empty_store_is_created() {
    for _ in 0..20 {
        let mut s = service();
        assert_eq!(s.token_repo.len(), 0);
        let (access, _, session) =
            s.create_session("alice", "a@x.io", &Role::User, None, None).unwrap();
        assert_eq!(s.token_repo.len(), 1);
        assert!(s.token_repo.is_session_active(session.id).unwrap());
        assert_eq!(s.verify_access_token_with_session(&access).unwrap().sub, "alice");
    }
}

#[test]
fn answer_of_the_store_to_a_lookup() {
    let live = session("s1", "alice", "a", "r", 1);
    let kept = TokenService::require_live(Ok(Some(live.clone()))).unwrap();
    assert_eq!((kept.id.as_str(), kept.user_id.as_str()), ("s1", "alice"));
    assert_eq!((kept.access_token_jti.as_str(), kept.refresh_token_jti.as_str()), ("a", "r"));
    assert!(kept.is_active);
    let mut dead = live;
    dead.is_active = false;
    assert_eq!(
        TokenService::require_live(Ok(Some(dead))).unwrap_err(),
        CoreError::Auth(AuthError::InvalidToken)
    );
    assert_eq!(
        TokenService::require_live(Ok(None)).unwrap_err(),
        CoreError::Auth(AuthError::InvalidToken)
    );
    let down = CoreError::Db(DatabaseError::query_failed("store is down".to_string(), None));
    assert_eq!(TokenService::require_live(Err(down.clone())).unwrap_err(), down);
}

#[test]
fn failed_note_of_liveness_refuses_nothing() {
    let s = service();
    let token = s
        .generate_access_token("alice", "a@x.io", &Role::User, None)
        .unwrap();
    let claims = s.verify_access_token(&token).unwrap();
    let down = CoreError::Db(DatabaseError::query_failed("store is down".to_string(), None));
    let passed = TokenService::after_liveness_write(claims.clone(), Err(down)).unwrap();
    assert_eq!(passed.sub, claims.sub);
    assert_eq!(passed.jti, claims.jti);
    assert_eq!(passed.scopes, claims.scopes);
    let written = TokenService::after_liveness_write(claims.clone(), Ok(())).unwrap();
    assert_eq!(written.jti, claims.jti);
}

#[test]
fn failed_rotation_hands_out_no_token() {
    let s = service();
    let pair = s.reissue(&session("s1", "alice", "a", "r", 1)).unwrap();
    let down = CoreError::Db(DatabaseError::query_failed("store is down".to_string(), None));
    assert_eq!(TokenService::after_rotation(pair, Err(down.clone())).unwrap_err(), down);
    let pair = s.reissue(&session("s1", "alice", "a", "r", 1)).unwrap();
    let (access, refresh) = (pair.access_token.clone(), pair.refresh_token.clone());
    assert_eq!(TokenService::after_rotation(pair, Ok(())).unwrap(), (access, refresh));
}

#[test]
fn revoked_session_and_forged_token_get_one_status() {
    let mut s = service();
    let (access, refresh, session) =
        s.create_session("alice", "a@x.io", &Role::User, None, None).unwrap();
    s.revoke_session(session.id).unwrap();
    let revoked_refresh = s.refresh_session(&refresh).unwrap_err();
    let revoked_access = s.verify_access_token_with_session(&access).unwrap_err();
    let forged = s.verify_access_token(&refresh).unwrap_err();
    assert_eq!(forged, CoreError::Jwt(JwtError::InvalidSignature));
    for e in [revoked_refresh, revoked_access, forged] {
        let answer = homeryland_api::errors::response::HttpError::from_error(e, "t".to_string());
        assert_eq!(answer.status, 401);
    }
}
