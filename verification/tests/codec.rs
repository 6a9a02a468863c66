use homeryland_api::codec::{from_json, issue, to_json, verify};
use homeryland_api::errors::error::CoreError;
use homeryland_api::errors::jwt::{JwtError, JwtFault};
use homeryland_api::models::role::Role;
use homeryland_api::models::token_claims::TokenClaims;
use homeryland_api::models::token_scope::TokenScope;
use homeryland_api::models::token_type::TokenType;

fn sample() -> TokenClaims {
    TokenClaims::new_access_token(
        "user-1".to_string(),
        "alice@example.com".to_string(),
        Role::Admin,
        1_700_000_000,
        1_700_000_900,
        vec![TokenScope::Read, TokenScope::Custom("billing:read".to_string())],
    )
}

fn same(a: &TokenClaims, b: &TokenClaims) -> bool {
    a.sub == b.sub
        && a.token_type == b.token_type
        && a.iat == b.iat
        && a.exp == b.exp
        && a.iss == b.iss
        && a.aud == b.aud
        && a.jti == b.jti
        && a.email == b.email
        && a.role == b.role
        && a.scopes == b.scopes
        && a.extra == b.extra
}

fn object(members: Vec<(&str, serde_json::Value)>) -> serde_json::Value {
    let mut map = serde_json::Map::new();
    for (k, v) in members {
        map.insert(k.to_string(), v);
    }
    serde_json::Value::Object(map)
}

fn text(s: &str) -> serde_json::Value {
    serde_json::Value::String(s.to_string())
}

fn full_payload() -> Vec<(&'static str, serde_json::Value)> {
    vec![
        ("sub", text("u")),
        ("token_type", text("Refresh")),
        ("iat", serde_json::Value::from(5i64)),
        ("exp", serde_json::Value::from(-7i64)),
        ("iss", serde_json::Value::Null),
        ("aud", text("aud")),
        ("jti", text("id-1")),
        ("email", serde_json::Value::Null),
        ("role", text("User")),
        ("scopes", serde_json::Value::Array(vec![text("refresh"), text("custom")])),
        ("extra", object(vec![("k", serde_json::Value::from(1i64))])),
    ]
}

#[test]
fn payload_has_one_member_for_each_field() {
    let c = sample();
    let v = to_json(&c);
    let m = v.as_object().unwrap();
    assert_eq!(m.len(), 11);
    assert_eq!(m["sub"], text("user-1"));
    assert_eq!(m["token_type"], text("Access"));
    assert_eq!(m["iat"], serde_json::Value::from(1_700_000_000i64));
    assert_eq!(m["exp"], serde_json::Value::from(1_700_000_900i64));
    assert_eq!(m["iss"], text("homeryland-api"));
    assert_eq!(m["aud"], text("homeryland-client"));
    assert_eq!(m["jti"], text(c.jti.as_ref().unwrap()));
    assert_eq!(m["email"], text("alice@example.com"));
    assert_eq!(m["role"], text("Admin"));
    assert_eq!(m["scopes"], serde_json::Value::Array(vec![text("read"), text("billing:read")]));
    assert_eq!(m["extra"], object(vec![]));
}

#[test]
fn payload_writes_missing_fields_as_null() {
    let c = TokenClaims::new_refresh_token("u".to_string(), 1, 2);
    let v = to_json(&c);
    assert!(v["email"].is_null());
    assert!(v["role"].is_null());
    assert_eq!(v["token_type"], text("Refresh"));
    assert_eq!(v["scopes"], serde_json::Value::Array(vec![text("refresh")]));
}

#[test]
fn payload_is_read_back_as_the_claims() {
    let c = sample();
    let back = from_json(&to_json(&c)).unwrap();
    assert!(same(&c, &back));
}

#[test]
fn payload_reading_rules() {
    let c = from_json(&object(full_payload())).unwrap();
    assert_eq!(c.sub, "u");
    assert_eq!(c.token_type, TokenType::Refresh);
    assert_eq!((c.iat, c.exp), (5, -7));
    assert_eq!(c.iss, None);
    assert_eq!(c.aud.as_deref(), Some("aud"));
    assert_eq!(c.jti.as_deref(), Some("id-1"));
    assert_eq!(c.email, None);
    assert_eq!(c.role, Some(Role::User));
    assert_eq!(c.scopes, vec![TokenScope::Refresh, TokenScope::Custom("custom".to_string())]);
    assert_eq!(c.extra, object(vec![("k", serde_json::Value::from(1i64))]));
}

fn without(key: &str) -> serde_json::Value {
    object(full_payload().into_iter().filter(|(k, _)| *k != key).collect())
}

fn with(key: &str, value: serde_json::Value) -> serde_json::Value {
    object(
        full_payload()
            .into_iter()
            .map(|(k, v)| if k == key { (k, value.clone()) } else { (k, v) })
            .collect(),
    )
}

#[test]
fn payload_with_missing_members() {
    for key in ["sub", "token_type", "iat", "exp", "scopes", "extra"] {
        assert!(from_json(&without(key)).is_none(), "{}", key);
    }
    for key in ["iss", "aud", "jti", "email", "role"] {
        assert!(from_json(&without(key)).is_some(), "{}", key);
    }
    assert_eq!(from_json(&without("jti")).unwrap().jti, None);
    assert_eq!(from_json(&without("role")).unwrap().role, None);
}

#[test]
fn payload_with_members_of_the_wrong_kind() {
    let one = serde_json::Value::from(1i64);
    assert!(from_json(&with("sub", one.clone())).is_none());
    assert!(from_json(&with("sub", serde_json::Value::Null)).is_none());
    assert!(from_json(&with("token_type", text("access"))).is_none());
    assert!(from_json(&with("token_type", text("Bearer"))).is_none());
    assert!(from_json(&with("iat", text("5"))).is_none());
    assert!(from_json(&with("exp", serde_json::Value::from(u64::MAX))).is_none());
    assert!(from_json(&with("exp", serde_json::Value::from(1.5f64))).is_none());
    assert!(from_json(&with("iss", one.clone())).is_none());
    assert!(from_json(&with("role", text("Root"))).is_none());
    assert!(from_json(&with("role", one.clone())).is_none());
    assert!(from_json(&with("scopes", text("read"))).is_none());
    assert!(from_json(&with("scopes", serde_json::Value::Array(vec![one.clone()]))).is_none());
    assert!(from_json(&with("extra", serde_json::Value::Array(vec![]))).is_none());
    assert!(from_json(&with("extra", serde_json::Value::Null)).is_none());
    assert!(from_json(&serde_json::Value::Null).is_none());
    assert!(from_json(&serde_json::Value::Array(vec![])).is_none());
    assert!(from_json(&with("scopes", serde_json::Value::Array(vec![]))).is_some());
    assert!(from_json(&with("exp", serde_json::Value::from(i64::MAX))).is_some());
}

#[test]
fn payload_passes_over_unknown_members() {
    let mut members = full_payload();
    members.push(("nbf", serde_json::Value::from(3i64)));
    members.push(("later", object(vec![])));
    assert!(from_json(&object(members)).is_some());
}

#[test]
fn issued_token_has_three_parts() {
    let token = issue(&sample(), "secret").unwrap();
    assert_eq!(token.split('.').count(), 3);
    assert!(token.chars().all(|c| c.is_ascii_alphanumeric() || c == '-' || c == '_' || c == '.'));
    assert_ne!(token, "secret");
}

#[test]
fn issued_token_is_read_back_as_the_claims() {
    let c = sample();
    let token = issue(&c, "secret").unwrap();
    let back = verify(&token, "secret").unwrap();
    assert!(same(&c, &back));
}

#[test]
fn codec_is_idempotent() {
    let c = sample();
    let first = verify(&issue(&c, "k").unwrap(), "k").unwrap();
    let second = verify(&issue(&first, "k").unwrap(), "k").unwrap();
    assert!(same(&c, &first));
    assert!(same(&first, &second));
    assert_eq!(issue(&first, "k").unwrap(), issue(&c, "k").unwrap());
}

#[test]
fn every_kind_of_claims_is_read_back() {
    let all = vec![
        sample(),
        TokenClaims::new_refresh_token("u".to_string(), 10, 20),
        TokenClaims::new_email_verification_token("u".to_string(), "e@x.io".to_string(), 10, 20),
        TokenClaims::new_password_reset_token("u".to_string(), "e@x.io".to_string(), 10, 20),
    ];
    for c in all {
        let back = verify(&issue(&c, "s3").unwrap(), "s3").unwrap();
        assert!(same(&c, &back));
    }
}

#[test]
fn custom_claims_are_carried() {
    let mut c = sample();
    c.extra = object(vec![
        ("tenant", text("acme")),
        ("level", serde_json::Value::from(3i64)),
        ("debt", serde_json::Value::from(-3i64)),
        ("beta", serde_json::Value::Bool(true)),
        ("none", serde_json::Value::Null),
        ("exp", text("never")),
    ]);
    let token = issue(&c, "secret").unwrap();
    let back = verify(&token, "secret").unwrap();
    assert_eq!(back.extra, c.extra);
    assert!(same(&c, &back));
}

#[test]
fn expired_token_is_still_read() {
    let c = TokenClaims::new_refresh_token("u".to_string(), 1, 2);
    let token = issue(&c, "secret").unwrap();
    let back = verify(&token, "secret").unwrap();
    assert_eq!(back.exp, 2);
    assert!(back.is_expired());
}

#[test]
fn token_with_negative_times_is_read() {
    let c = TokenClaims::new_refresh_token("u".to_string(), -20, -10);
    let back = verify(&issue(&c, "secret").unwrap(), "secret").unwrap();
    assert_eq!((back.iat, back.exp), (-20, -10));
}

#[test]
fn wrong_secret_is_an_invalid_signature() {
    let token = issue(&sample(), "secret-a").unwrap();
    let refused = verify(&token, "secret-b").unwrap_err();
    assert_eq!(refused, CoreError::Jwt(JwtError::InvalidSignature));
    let refused = verify(&token, "").unwrap_err();
    assert_eq!(refused, CoreError::Jwt(JwtError::InvalidSignature));
}

#[test]
fn corrupt_signature_is_an_invalid_signature() {
    let token = issue(&sample(), "secret").unwrap();
    let (message, signature) = token.rsplit_once('.').unwrap();
    let flipped: String = signature
        .chars()
        .enumerate()
        .map(|(i, c)| if i == 0 { if c == 'A' { 'B' } else { 'A' } } else { c })
        .collect();
    let forged = format!("{}.{}", message, flipped);
    assert_eq!(verify(&forged, "secret").unwrap_err(), CoreError::Jwt(JwtError::InvalidSignature));
}

#[test]
fn changed_payload_is_an_invalid_signature() {
    let token = issue(&sample(), "secret").unwrap();
    let other = issue(&TokenClaims::new_refresh_token("u".to_string(), 1, 2), "secret").unwrap();
    let parts: Vec<&str> = token.split('.').collect();
    let other_parts: Vec<&str> = other.split('.').collect();
    let forged = format!("{}.{}.{}", parts[0], other_parts[1], parts[2]);
    assert_eq!(verify(&forged, "secret").unwrap_err(), CoreError::Jwt(JwtError::InvalidSignature));
}

#[test]
fn malformed_tokens_are_refused() {
    assert_eq!(verify("", "secret").unwrap_err(), CoreError::Jwt(JwtError::InvalidToken));
    assert_eq!(verify("abc", "secret").unwrap_err(), CoreError::Jwt(JwtError::InvalidToken));
    assert_eq!(verify("a.b", "secret").unwrap_err(), CoreError::Jwt(JwtError::InvalidToken));
    assert_eq!(verify("a.b.c.d", "secret").unwrap_err(), CoreError::Jwt(JwtError::InvalidFormat));
    assert_eq!(verify("!!.??.**", "secret").unwrap_err(), CoreError::Jwt(JwtError::InvalidFormat));
}

fn foreign_token(alg: jsonwebtoken::Algorithm, payload: &serde_json::Value, secret: &str) -> String {
    jsonwebtoken::encode(
        &jsonwebtoken::Header::new(alg),
        payload,
        &jsonwebtoken::EncodingKey::from_secret(secret.as_bytes()),
    )
    .unwrap()
}

#[test]
fn other_algorithm_is_refused() {
    let token = foreign_token(jsonwebtoken::Algorithm::HS512, &to_json(&sample()), "secret");
    assert_eq!(verify(&token, "secret").unwrap_err(), CoreError::Jwt(JwtError::InvalidAlgorithm));
}

#[test]
fn well_signed_payload_without_claims_is_an_invalid_format() {
    let token = foreign_token(jsonwebtoken::Algorithm::HS256, &object(vec![("sub", text("u"))]), "s");
    assert_eq!(verify(&token, "s").unwrap_err(), CoreError::Jwt(JwtError::InvalidFormat));
}

#[test]
fn token_of_the_library_is_read() {
    let token = foreign_token(jsonwebtoken::Algorithm::HS256, &object(full_payload()), "s");
    let c = verify(&token, "s").unwrap();
    assert_eq!(c.sub, "u");
    assert_eq!(c.exp, -7);
    assert_eq!(c.aud.as_deref(), Some("aud"));
}

#[test]
fn issued_token_is_read_by_the_library() {
    let c = sample();
    let token = issue(&c, "secret").unwrap();
    let mut validation = jsonwebtoken::Validation::new(jsonwebtoken::Algorithm::HS256);
    validation.validate_exp = false;
    validation.validate_aud = false;
    let data = jsonwebtoken::decode::<serde_json::Value>(
        &token,
        &jsonwebtoken::DecodingKey::from_secret(b"secret"),
        &validation,
    )
    .unwrap();
    assert_eq!(data.header.alg, jsonwebtoken::Algorithm::HS256);
    assert_eq!(data.claims, to_json(&c));
}

#[test]
fn refusals_for_the_faults_of_the_library() {
    let table = vec![
        (JwtFault::InvalidToken, JwtError::InvalidToken),
        (JwtFault::ExpiredSignature, JwtError::TokenExpired),
        (JwtFault::InvalidSignature, JwtError::InvalidSignature),
        (JwtFault::InvalidKeyFormat, JwtError::InvalidKey),
        (JwtFault::InvalidAlgorithm, JwtError::InvalidAlgorithm),
        (JwtFault::InvalidAlgorithmName, JwtError::InvalidAlgorithm),
        (JwtFault::MissingRequiredClaim, JwtError::InvalidPayload),
        (JwtFault::InvalidIssuer, JwtError::InvalidPayload),
        (JwtFault::InvalidAudience, JwtError::InvalidPayload),
        (JwtFault::InvalidSubject, JwtError::InvalidPayload),
        (JwtFault::ImmatureSignature, JwtError::TokenExpired),
        (JwtFault::Json, JwtError::InvalidFormat),
        (JwtFault::Utf8, JwtError::InvalidFormat),
        (JwtFault::Crypto, JwtError::InvalidSignature),
        (JwtFault::Base64, JwtError::InvalidFormat),
        (JwtFault::Other, JwtError::DecodingError),
    ];
    for (fault, refusal) in table {
        assert_eq!(JwtError::from(fault), refusal);
    }
}

fn nested_lists(levels: usize) -> serde_json::Value {
    let mut value = serde_json::Value::from(7i64);
    for _ in 0..levels {
        value = serde_json::Value::Array(vec![value]);
    }
    value
}

#[test]
fn nested_custom_claims_are_carried() {
    let mut c = sample();
    c.extra = object(vec![
        (
            "tenant",
            object(vec![
                ("name", text("acme")),
                ("plans", serde_json::Value::Array(vec![text("basic"), object(vec![("seats", serde_json::Value::from(12i64))])])),
            ]),
        ),
        ("flags", serde_json::Value::Array(vec![serde_json::Value::Bool(false), serde_json::Value::Null])),
        ("sub", object(vec![("shadow", text("kept"))])),
    ]);
    let token = issue(&c, "secret").unwrap();
    let back = verify(&token, "secret").unwrap();
    assert_eq!(back.extra, c.extra);
    assert!(same(&c, &back));
    let second = verify(&issue(&back, "secret").unwrap(), "secret").unwrap();
    assert!(same(&back, &second));
}

#[test]
fn custom_claims_at_the_deepest_level_are_carried() {
    // the payload and the custom claims are two levels of the 127
    let mut c = sample();
    c.extra = object(vec![("deep", nested_lists(125))]);
    let back = verify(&issue(&c, "secret").unwrap(), "secret").unwrap();
    assert!(same(&c, &back));
}

#[test]
fn custom_claims_below_the_deepest_level_are_not_read() {
    let mut c = sample();
    c.extra = object(vec![("deep", nested_lists(126))]);
    let token = issue(&c, "secret").unwrap();
    assert_eq!(verify(&token, "secret").unwrap_err(), CoreError::Jwt(JwtError::InvalidFormat));
}

#[test]
fn payload_of_a_fifth_purpose_is_refused() {
    assert!(from_json(&with("token_type", text("Invitation"))).is_none());
    assert!(from_json(&with("token_type", text("invitation"))).is_none());
    let token = foreign_token(
        jsonwebtoken::Algorithm::HS256,
        &with("token_type", text("Invitation")),
        "s",
    );
    assert_eq!(verify(&token, "s").unwrap_err(), CoreError::Jwt(JwtError::InvalidFormat));
}
