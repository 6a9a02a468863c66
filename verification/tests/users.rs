use homeryland_api::database::user::UserRepository;
use homeryland_api::dtos::auth::{TokenResponse, UserResponse};
use homeryland_api::errors::auth::AuthError;
use homeryland_api::errors::db::DatabaseError;
use homeryland_api::errors::error::CoreError;
use homeryland_api::models::role::Role;
use homeryland_api::models::token::Token;
use homeryland_api::models::token_status::TokenStatus;
use homeryland_api::models::token_type::TokenType;
use homeryland_api::models::user::User;
use homeryland_api::services::user::UserService;

fn user(id: &str, email: &str) -> User {
    User::new_at(id.to_string(), "Name".to_string(), email.to_string(), "hash".to_string(), 50)
}

fn store() -> UserRepository {
    let mut repo = UserRepository::new();
    repo.create(user("u1", "a@x.io")).unwrap();
    repo.create(user("u2", "b@x.io")).unwrap();
    repo
}

fn auth(e: AuthError) -> CoreError {
    CoreError::Auth(e)
}

#[test]
fn new_user_is_an_unverified_ordinary_user() {
    let u = user("u1", "a@x.io");
    assert_eq!((u.id.as_str(), u.name.as_str(), u.email.as_str()), ("u1", "Name", "a@x.io"));
    assert_eq!(u.password, "hash");
    assert_eq!(u.role, Role::User);
    assert!(!u.verified);
    assert_eq!((u.created_at, u.updated_at), (Some(50), Some(50)));
    assert!(!u.is_admin());
    let timed = User::new("u".to_string(), "n".to_string(), "e".to_string(), "p".to_string());
    assert_eq!(timed.created_at, timed.updated_at);
    assert!((timed.created_at.unwrap() - chrono::Utc::now().timestamp()).abs() <= 5);
}

#[test]
fn admin_and_public_info() {
    let mut u = user("u1", "a@x.io");
    u.role = Role::Admin;
    u.verified = true;
    assert!(u.is_admin());
    let info = u.to_public_info();
    assert_eq!((info.id.as_str(), info.name.as_str(), info.email.as_str()), ("u1", "Name", "a@x.io"));
    assert_eq!(info.role, Role::Admin);
    assert!(info.verified);
    assert_eq!(info.created_at, Some(50));
}

#[test]
fn user_response_writes_times_as_text() {
    let mut u = user("u1", "a@x.io");
    u.created_at = Some(1_431_648_000);
    u.updated_at = None;
    let r = UserResponse::from(u);
    assert_eq!((r.id.as_str(), r.name.as_str(), r.email.as_str()), ("u1", "Name", "a@x.io"));
    assert_eq!(r.role, "User");
    assert!(!r.verified);
    assert_eq!(r.created_at.as_deref(), Some("2015-05-15T00:00:00+00:00"));
    assert_eq!(r.updated_at, None);
    let mut far = user("u1", "a@x.io");
    far.created_at = Some(i64::MIN);
    assert_eq!(UserResponse::from(far).created_at, None);
}

#[test]
fn token_response_is_a_bearer() {
    let r = TokenResponse::new("a".to_string(), "r".to_string(), 900);
    assert_eq!((r.access_token.as_str(), r.refresh_token.as_str()), ("a", "r"));
    assert_eq!(r.token_type, "Bearer");
    assert_eq!(r.expires_in, 900);
}

#[test]
fn token_record_life() {
    let mut t = Token::new(
        "u1".to_string(),
        TokenType::Access,
        "hash".to_string(),
        1000,
        Some("jti".to_string()),
    );
    assert_eq!(t.status, TokenStatus::Active);
    assert_eq!(t.id.len(), 36);
    assert_eq!(t.expires_at, 1000);
    assert_eq!(t.jti.as_deref(), Some("jti"));
    assert_eq!((t.last_used_at, t.revoked_at), (None, None));
    assert_eq!(t.metadata, serde_json::Value::Object(serde_json::Map::new()));
    assert!((t.created_at - chrono::Utc::now().timestamp()).abs() <= 5);
    assert!(t.is_valid_at(999));
    assert!(!t.is_valid_at(1000));
    assert!(!t.is_expired_at(999));
    assert!(t.is_expired_at(1000));
    assert!(t.is_expired_at(1001));
    assert!(t.is_expired());
    assert!(!t.is_valid());
    t.update_last_used_at(Some("1.2.3.4".to_string()), 900);
    assert_eq!((t.last_used_at, t.last_used_ip.as_deref()), (Some(900), Some("1.2.3.4")));
    t.update_last_used_at(None, 950);
    assert_eq!((t.last_used_at, t.last_used_ip.as_deref()), (Some(950), Some("1.2.3.4")));
    t.mark_as_used();
    assert_eq!(t.status, TokenStatus::Used);
    assert!(!t.is_valid_at(0));
    t.revoke_at(960);
    assert_eq!((t.status, t.revoked_at), (TokenStatus::Revoked, Some(960)));
    t.revoke();
    assert!((t.revoked_at.unwrap() - chrono::Utc::now().timestamp()).abs() <= 5);
    t.update_last_used(None);
    assert!((t.last_used_at.unwrap() - chrono::Utc::now().timestamp()).abs() <= 5);
    let lasting = Token::new("u".to_string(), TokenType::Refresh, "h".to_string(), i64::MAX, None);
    assert!(lasting.is_valid());
    assert!(!lasting.is_expired());
}

#[test]
fn store_finds_by_id_and_email() {
    let repo = store();
    assert_eq!(repo.find_by_id("u2".to_string()).unwrap().unwrap().email, "b@x.io");
    assert_eq!(repo.find_by_email("a@x.io".to_string()).unwrap().unwrap().id, "u1");
    assert!(repo.find_by_id("u3".to_string()).unwrap().is_none());
    assert!(repo.find_by_email("A@x.io".to_string()).unwrap().is_none());
    assert!(repo.email_exists("b@x.io".to_string()).unwrap());
    assert!(!repo.email_exists("c@x.io".to_string()).unwrap());
}

#[test]
fn store_refuses_a_taken_id_or_email() {
    let mut repo = store();
    let refused = repo.create(user("u1", "new@x.io")).unwrap_err();
    assert!(matches!(refused, CoreError::Db(DatabaseError::ConstraintViolation(_))));
    let refused = repo.create(user("u9", "a@x.io")).unwrap_err();
    assert!(matches!(refused, CoreError::Db(DatabaseError::ConstraintViolation(_))));
    assert!(repo.find_by_id("u9".to_string()).unwrap().is_none());
    assert!(!repo.email_exists("new@x.io".to_string()).unwrap());
    assert!(repo.create(user("u9", "new@x.io")).is_ok());
}

#[test]
fn store_updates() {
    let mut repo = store();
    let u = repo.update_verification_status("u1".to_string(), true, 60).unwrap();
    assert!(u.verified);
    assert_eq!((u.created_at, u.updated_at), (Some(50), Some(60)));
    let u = repo.update_password("u1".to_string(), "h2".to_string(), 70).unwrap();
    assert_eq!((u.password.as_str(), u.updated_at, u.verified), ("h2", Some(70), true));
    let u = repo.update_profile("u1".to_string(), Some("New".to_string()), None, 80).unwrap();
    assert_eq!((u.name.as_str(), u.email.as_str(), u.verified), ("New", "a@x.io", true));
    let u = repo
        .update_profile("u1".to_string(), None, Some("c@x.io".to_string()), 90)
        .unwrap();
    assert_eq!((u.name.as_str(), u.email.as_str(), u.verified), ("New", "c@x.io", false));
    assert_eq!(u.updated_at, Some(90));
    assert_eq!(repo.find_by_id("u1".to_string()).unwrap().unwrap().email, "c@x.io");
    assert!(!repo.email_exists("a@x.io".to_string()).unwrap());
    assert_eq!(repo.find_by_id("u2".to_string()).unwrap().unwrap().updated_at, Some(50));
    // the own address again: allowed, and unconfirmed again
    repo.update_verification_status("u1".to_string(), true, 91).unwrap();
    let u = repo
        .update_profile("u1".to_string(), None, Some("c@x.io".to_string()), 92)
        .unwrap();
    assert!(!u.verified);
}

#[test]
fn store_update_refusals() {
    let mut repo = store();
    for refused in [
        repo.update_verification_status("u9".to_string(), true, 1).unwrap_err(),
        repo.update_password("u9".to_string(), "h".to_string(), 1).unwrap_err(),
        repo.update_profile("u9".to_string(), None, None, 1).unwrap_err(),
    ] {
        assert!(matches!(refused, CoreError::Db(DatabaseError::NotFound(_))));
    }
    let taken = repo
        .update_profile("u1".to_string(), Some("X".to_string()), Some("b@x.io".to_string()), 1)
        .unwrap_err();
    assert!(matches!(taken, CoreError::Db(DatabaseError::ConstraintViolation(_))));
    let u1 = repo.find_by_id("u1".to_string()).unwrap().unwrap();
    assert_eq!((u1.name.as_str(), u1.email.as_str(), u1.updated_at), ("Name", "a@x.io", Some(50)));
}

#[test]
fn store_delete() {
    let mut repo = store();
    repo.delete("u1".to_string()).unwrap();
    assert!(repo.find_by_id("u1".to_string()).unwrap().is_none());
    assert!(repo.find_by_id("u2".to_string()).unwrap().is_some());
    repo.delete("u1".to_string()).unwrap();
    repo.delete("nobody".to_string()).unwrap();
    assert!(repo.create(user("u1", "a@x.io")).is_ok());
}

#[test]
fn name_rules() {
    let s = UserService::new();
    assert_eq!(s.validate_name("Alice"), Ok(()));
    assert_eq!(s.validate_name(" a "), Ok(()));
    assert_eq!(s.validate_name(&"x".repeat(100)), Ok(()));
    for bad in ["", "   ", "\t\n", &"x".repeat(101), &"\u{e9}".repeat(51)] {
        assert_eq!(s.validate_name(bad), Err(auth(AuthError::InvalidCredentials)), "{:?}", bad);
    }
    assert_eq!(s.validate_name(&"\u{e9}".repeat(50)), Ok(()));
}

#[test]
fn password_rules() {
    let s = UserService::new();
    assert_eq!(s.validate_password(""), Err(auth(AuthError::EmptyPassword)));
    assert_eq!(s.validate_password("1234567"), Err(auth(AuthError::InvalidCredentials)));
    assert_eq!(s.validate_password("12345678"), Ok(()));
    assert_eq!(s.validate_password(&"x".repeat(128)), Ok(()));
    assert_eq!(
        s.validate_password(&"x".repeat(129)),
        Err(auth(AuthError::PasswordTooLong { max_length: 128 }))
    );
    assert_eq!(s.validate_password("\u{e9}\u{e9}\u{e9}\u{e9}"), Ok(()));
    assert_eq!(s.validate_password("        "), Ok(()));
}

#[test]
fn email_rule() {
    let s = UserService::new();
    assert_eq!(s.validate_email("a@b.co"), Ok(()));
    assert_eq!(s.validate_email("a@b"), Err(auth(AuthError::InvalidCredentials)));
    assert_eq!(s.validate_email(""), Err(auth(AuthError::InvalidCredentials)));
}

#[test]
fn input_rules_in_order() {
    let s = UserService::new();
    assert_eq!(s.validate_user_input("Alice", "a@b.co", "12345678"), Ok(()));
    assert_eq!(s.validate_user_input("", "bad", ""), Err(auth(AuthError::InvalidCredentials)));
    assert_eq!(s.validate_user_input("Alice", "bad", ""), Err(auth(AuthError::InvalidCredentials)));
    assert_eq!(s.validate_user_input("Alice", "a@b.co", ""), Err(auth(AuthError::EmptyPassword)));
    assert_eq!(
        s.validate_user_input("Alice", "a@b.co", &"x".repeat(200)),
        Err(auth(AuthError::PasswordTooLong { max_length: 128 }))
    );
}

#[test]
fn decisions_on_what_the_store_said() {
    assert_eq!(UserService::ensure_email_free(false), Ok(()));
    assert_eq!(UserService::ensure_email_free(true), Err(auth(AuthError::EmailAlreadyExists)));
    assert_eq!(UserService::ensure_password_matches(true), Ok(()));
    assert_eq!(
        UserService::ensure_password_matches(false),
        Err(auth(AuthError::InvalidCredentials))
    );
}

#[test]
fn password_hashes() {
    let s = UserService::new();
    let hash = s.hash_password("correct horse").unwrap();
    assert_ne!(hash, "correct horse");
    assert!(hash.starts_with("$2"));
    assert_eq!(hash.len(), 60);
    assert_eq!(s.verify_password("correct horse", &hash), Ok(true));
    assert_eq!(s.verify_password("wrong horse", &hash), Ok(false));
    assert_eq!(s.verify_password("x", "not a hash"), Err(auth(AuthError::InvalidHashFormat)));
    assert_eq!(s.verify_password("x", ""), Err(auth(AuthError::InvalidHashFormat)));
    assert!(bcrypt::verify("correct horse", &hash).unwrap());
}

#[test]
fn registration_and_login() {
    let mut s = UserService::new();
    let u = s
        .create_user("Alice".to_string(), "alice@x.io".to_string(), "password1".to_string())
        .unwrap();
    assert_eq!((u.name.as_str(), u.email.as_str()), ("Alice", "alice@x.io"));
    assert_eq!(u.id.len(), 36);
    assert_eq!(u.role, Role::User);
    assert!(!u.verified);
    assert_ne!(u.password, "password1");
    let again = s.create_user("Al".to_string(), "alice@x.io".to_string(), "password2".to_string());
    assert_eq!(again.unwrap_err(), auth(AuthError::EmailAlreadyExists));
    let bad = s.create_user("".to_string(), "bob@x.io".to_string(), "password2".to_string());
    assert_eq!(bad.unwrap_err(), auth(AuthError::InvalidCredentials));
    assert!(s.find_by_email("bob@x.io".to_string()).unwrap().is_none());
    let short = s.create_user("Bob".to_string(), "bob@x.io".to_string(), "short".to_string());
    assert_eq!(short.unwrap_err(), auth(AuthError::InvalidCredentials));
    let logged = s.authenticate_user("alice@x.io".to_string(), "password1".to_string()).unwrap();
    assert_eq!(logged.id, u.id);
    assert_eq!(
        s.authenticate_user("alice@x.io".to_string(), "password2".to_string()).unwrap_err(),
        auth(AuthError::InvalidCredentials)
    );
    assert_eq!(
        s.authenticate_user("nobody@x.io".to_string(), "password1".to_string()).unwrap_err(),
        auth(AuthError::InvalidCredentials)
    );
    assert_eq!(s.find_by_id(u.id.clone()).unwrap().unwrap().email, "alice@x.io");
}

#[test]
fn password_changes() {
    let mut s = UserService::new();
    let u = s
        .create_user("Alice".to_string(), "alice@x.io".to_string(), "password1".to_string())
        .unwrap();
    assert_eq!(
        s.change_password(u.id.clone(), "wrong".to_string(), "password2".to_string()).unwrap_err(),
        auth(AuthError::InvalidCredentials)
    );
    assert_eq!(
        s.change_password(u.id.clone(), "password1".to_string(), "".to_string()).unwrap_err(),
        auth(AuthError::EmptyPassword)
    );
    assert_eq!(
        s.change_password("ghost".to_string(), "password1".to_string(), "password2".to_string())
            .unwrap_err(),
        auth(AuthError::UserNoLongerExists)
    );
    assert!(s.authenticate_user("alice@x.io".to_string(), "password1".to_string()).is_ok());
    s.change_password(u.id.clone(), "password1".to_string(), "password2".to_string()).unwrap();
    assert!(s.authenticate_user("alice@x.io".to_string(), "password2".to_string()).is_ok());
    assert!(s.authenticate_user("alice@x.io".to_string(), "password1".to_string()).is_err());
    s.reset_password(u.id.clone(), "password3".to_string()).unwrap();
    assert!(s.authenticate_user("alice@x.io".to_string(), "password3".to_string()).is_ok());
    assert_eq!(
        s.reset_password(u.id.clone(), "short".to_string()).unwrap_err(),
        auth(AuthError::InvalidCredentials)
    );
    assert!(matches!(
        s.reset_password("ghost".to_string(), "password4".to_string()).unwrap_err(),
        CoreError::Db(DatabaseError::NotFound(_))
    ));
}

#[test]
fn profile_changes() {
    let mut s = UserService::new();
    let a = s
        .create_user("Alice".to_string(), "alice@x.io".to_string(), "password1".to_string())
        .unwrap();
    s.create_user("Bob".to_string(), "bob@x.io".to_string(), "password1".to_string()).unwrap();
    let verified = s.verify_email(a.id.clone()).unwrap();
    assert!(verified.verified);
    assert!(matches!(
        s.verify_email("ghost".to_string()).unwrap_err(),
        CoreError::Db(DatabaseError::NotFound(_))
    ));
    let renamed = s.update_profile(a.id.clone(), Some("Alicia".to_string()), None).unwrap();
    assert_eq!((renamed.name.as_str(), renamed.verified), ("Alicia", true));
    assert_eq!(
        s.update_profile(a.id.clone(), Some(" ".to_string()), None).unwrap_err(),
        auth(AuthError::InvalidCredentials)
    );
    assert_eq!(
        s.update_profile(a.id.clone(), None, Some("bob@x.io".to_string())).unwrap_err(),
        auth(AuthError::EmailAlreadyExists)
    );
    assert_eq!(
        s.update_profile(a.id.clone(), None, Some("nonsense".to_string())).unwrap_err(),
        auth(AuthError::InvalidCredentials)
    );
    assert_eq!(
        s.update_profile("ghost".to_string(), None, Some("g@x.io".to_string())).unwrap_err(),
        auth(AuthError::UserNoLongerExists)
    );
    let moved = s.update_profile(a.id.clone(), None, Some("alicia@x.io".to_string())).unwrap();
    assert_eq!((moved.email.as_str(), moved.verified), ("alicia@x.io", false));
    s.delete_user(a.id.clone()).unwrap();
    assert!(s.find_by_id(a.id).unwrap().is_none());
    assert!(s.find_by_email("bob@x.io".to_string()).unwrap().is_some());
}
