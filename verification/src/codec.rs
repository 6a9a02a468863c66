//! The token codec: claims to a signed, URL-safe token and back.
//!
//! A token is `header.payload.signature`, signed with HMAC-SHA-256 under the
//! secret of the token's purpose. The payload is a JSON object with one
//! member for each field of the claims. Reading a token checks its form and
//! its signature, never its end: whether the claims have ended is for the
//! caller to ask of the claims.

use crate::errors::jwt::{JwtError, JwtFault};
use crate::json::{
    as_int, as_list, as_text, duplicate, empty_object, from_int, from_list, from_text, insert,
    is_null, is_object, json_of, jsons_of, member, null, Json,
};
use crate::models::role::Role;
use crate::models::token_claims::{opt_text, ClaimsView, TokenClaims};
use crate::models::token_scope::TokenScope;
use crate::models::token_type::TokenType;
use jsonwebtoken::errors::ErrorKind;
use vstd::prelude::*;
use vstd::string::*;

verus! {

/// `jsonwebtoken::errors::Error`, the error of the token library. Nothing is
/// known of an error but its kind, through `fault_of`.
#[verifier::external_type_specification]
#[verifier::external_body]
pub struct ExJwtLibraryError(jsonwebtoken::errors::Error);

/// The kind of failure that an error of `jsonwebtoken` reports, as `fault`
/// tells the kinds apart.
pub uninterp spec fn fault_of(e: jsonwebtoken::errors::Error) -> JwtFault;

/// What `jsonwebtoken::decode` makes of `token` under the HMAC secret
/// `secret`, with HS256 as the one accepted algorithm and no check of the
/// claims' content: the payload, or the kind of failure.
pub uninterp spec fn hs256_opened(token: Seq<char>, secret: Seq<char>) -> Result<Json, JwtFault>;

/// How deep lists and objects may nest in a payload, the payload itself
/// counted: `serde_json` reads a document back as far as its limit of 128
/// allows, which is one less.
pub const MAX_NESTING: usize = 127;

/// Whether the member under `key`, if there is one, is a scalar.
pub open spec fn scalar_if_present(json: Json, key: Seq<char>) -> bool {
    json.member(key) matches Some(v) ==> v.is_scalar()
}

/// The payloads that are read back from their token as they were: objects
/// without numbers in floating point, nested no deeper than `MAX_NESTING`,
/// with scalars for the registered claims `exp`, `nbf` and `sub`.
pub open spec fn sealable(json: Json) -> bool {
    &&& json is Object
    &&& json.plain_within(MAX_NESTING as nat)
    &&& scalar_if_present(json, "exp"@)
    &&& scalar_if_present(json, "nbf"@)
    &&& scalar_if_present(json, "sub"@)
}

/// `token` carries `json`, signed under `secret`: opened under that secret it
/// yields `json`, and opened under any secret it yields `json` or fails the
/// signature check, nothing else.
pub open spec fn sealed(token: Seq<char>, json: Json, secret: Seq<char>) -> bool {
    &&& hs256_opened(token, secret) == Ok::<Json, JwtFault>(json)
    &&& forall|other: Seq<char>|
        #![trigger hs256_opened(token, other)]
        hs256_opened(token, other) == Ok::<Json, JwtFault>(json) || hs256_opened(token, other)
            == Err::<Json, JwtFault>(JwtFault::InvalidSignature)
}

/// `jsonwebtoken::encode` with an HS256 header and the HMAC key made of
/// `secret`: the signed token for `payload`. With such a key and a JSON value
/// as payload the call has nothing to fail on. Of a sealable payload the
/// token is well formed in header and payload, and `serde_json` reads the
/// payload back whole: it follows lists and objects up to 127 deep, and
/// without numbers in floating point it reads every number as it was
/// written. So `jsonwebtoken::decode` yields the payload under the same
/// secret, and under another secret can fail on the signature alone.
#[verifier::external_body]
fn hs256_seal(payload: &serde_json::Value, secret: &str) -> (made: Result<
    String,
    jsonwebtoken::errors::Error,
>)
    ensures
        made is Ok,
        sealable(json_of(*payload)) ==> sealed(made->Ok_0@, json_of(*payload), secret@),
{
    let header = jsonwebtoken::Header::new(jsonwebtoken::Algorithm::HS256);
    let key = jsonwebtoken::EncodingKey::from_secret(secret.as_bytes());
    jsonwebtoken::encode(&header, payload, &key)
}

/// `jsonwebtoken::decode` into a JSON value, with the HMAC key made of
/// `secret`, HS256 as the one accepted algorithm, and the checks of expiry,
/// audience and required claims switched off: the payload of a token whose
/// form and signature are good, else the library's error.
#[verifier::external_body]
fn hs256_open(token: &str, secret: &str) -> (opened: Result<
    serde_json::Value,
    jsonwebtoken::errors::Error,
>)
    ensures
        match opened {
            Ok(payload) => hs256_opened(token@, secret@) == Ok::<Json, JwtFault>(json_of(payload)),
            Err(e) => hs256_opened(token@, secret@) == Err::<Json, JwtFault>(fault_of(e)),
        },
{
    let mut validation = jsonwebtoken::Validation::new(jsonwebtoken::Algorithm::HS256);
    validation.validate_exp = false;
    validation.validate_aud = false;
    validation.required_spec_claims.clear();
    let key = jsonwebtoken::DecodingKey::from_secret(secret.as_bytes());
    jsonwebtoken::decode::<serde_json::Value>(token, &key, &validation).map(|data| data.claims)
}

/// `jsonwebtoken::errors::Error::kind`: which kind of failure the error
/// reports. The kinds that reading a token under an HMAC secret, without a
/// check of issuer, audience or subject, can end in, are told apart; every
/// other kind counts as `Other`.
#[verifier::external_body]
fn fault(e: &jsonwebtoken::errors::Error) -> (kind: JwtFault)
    ensures
        kind == fault_of(*e),
{
    match e.kind() {
        ErrorKind::InvalidToken => JwtFault::InvalidToken,
        ErrorKind::InvalidSignature => JwtFault::InvalidSignature,
        ErrorKind::InvalidKeyFormat => JwtFault::InvalidKeyFormat,
        ErrorKind::InvalidAlgorithm => JwtFault::InvalidAlgorithm,
        ErrorKind::ExpiredSignature => JwtFault::ExpiredSignature,
        ErrorKind::ImmatureSignature => JwtFault::ImmatureSignature,
        ErrorKind::MissingRequiredClaim(_) => JwtFault::MissingRequiredClaim,
        ErrorKind::Base64(_) => JwtFault::Base64,
        ErrorKind::Json(_) => JwtFault::Json,
        ErrorKind::Utf8(_) => JwtFault::Utf8,
        ErrorKind::Crypto(_) => JwtFault::Crypto,
        _ => JwtFault::Other,
    }
}

/// An optional text as JSON: the text, or null.
pub open spec fn opt_text_json(t: Option<Seq<char>>) -> Json {
    match t {
        Some(s) => Json::Text(s),
        None => Json::Null,
    }
}

/// An optional role as JSON: its name, or null.
pub open spec fn opt_role_json(role: Option<Role>) -> Json {
    match role {
        Some(r) => Json::Text(r.name()),
        None => Json::Null,
    }
}

/// A list of texts as JSON.
pub open spec fn texts_json(texts: Seq<Seq<char>>) -> Json {
    Json::List(texts.map_values(|s: Seq<char>| Json::Text(s)))
}

/// The payload of a token with the given claims: a JSON object with one
/// member for each field.
pub open spec fn payload(c: ClaimsView) -> Json {
    Json::Object(
        Map::<Seq<char>, Json>::empty().insert("sub"@, Json::Text(c.sub)).insert(
            "token_type"@,
            Json::Text(c.token_type.wire_text()),
        ).insert("iat"@, Json::Int(c.iat)).insert("exp"@, Json::Int(c.exp)).insert(
            "iss"@,
            opt_text_json(c.iss),
        ).insert("aud"@, opt_text_json(c.aud)).insert("jti"@, opt_text_json(c.jti)).insert(
            "email"@,
            opt_text_json(c.email),
        ).insert("role"@, opt_role_json(c.role)).insert("scopes"@, texts_json(c.scopes)).insert(
            "extra"@,
            c.extra,
        ),
    )
}

/// The text under `key`; `None` where the member is missing or no text.
pub open spec fn read_text(json: Json, key: Seq<char>) -> Option<Seq<char>> {
    match json.member(key) {
        Some(Json::Text(s)) => Some(s),
        _ => None,
    }
}

/// The optional text under `key`: a missing member and null both stand for
/// no text; `None` where the member is anything but a text or null.
pub open spec fn read_opt_text(json: Json, key: Seq<char>) -> Option<Option<Seq<char>>> {
    match json.member(key) {
        None => Some(None),
        Some(Json::Null) => Some(None),
        Some(Json::Text(s)) => Some(Some(s)),
        _ => None,
    }
}

/// The integer under `key`; `None` where the member is missing, no integer,
/// or does not fit 64 bits.
pub open spec fn read_int(json: Json, key: Seq<char>) -> Option<int> {
    match json.member(key) {
        Some(Json::Int(i)) => if i64::MIN <= i <= i64::MAX {
            Some(i)
        } else {
            None
        },
        _ => None,
    }
}

/// Whether every item is a text.
pub open spec fn all_text(items: Seq<Json>) -> bool {
    forall|i: int| 0 <= i < items.len() ==> #[trigger] items[i] is Text
}

/// The texts that the items hold, in order.
pub open spec fn texts_of(items: Seq<Json>) -> Seq<Seq<char>> {
    Seq::new(items.len(), |i: int| items[i]->Text_0)
}

/// The list of texts under `key`; `None` where the member is missing, no
/// list, or holds anything but texts.
pub open spec fn read_texts(json: Json, key: Seq<char>) -> Option<Seq<Seq<char>>> {
    match json.member(key) {
        Some(Json::List(items)) => if all_text(items) {
            Some(texts_of(items))
        } else {
            None
        },
        _ => None,
    }
}

/// The optional role under `key`: a missing member and null both stand for
/// no role; `None` where the member is anything but null or a role's name.
pub open spec fn read_opt_role(json: Json, key: Seq<char>) -> Option<Option<Role>> {
    match read_opt_text(json, key) {
        Some(Some(name)) => match Role::named(name) {
            Some(role) => Some(Some(role)),
            None => None,
        },
        Some(None) => Some(None),
        None => None,
    }
}

/// The purpose under `key`; `None` where the member is missing or names no
/// purpose.
pub open spec fn read_type(json: Json, key: Seq<char>) -> Option<TokenType> {
    match read_text(json, key) {
        Some(name) => TokenType::wire_named(name),
        None => None,
    }
}

/// The object under `key`; `None` where the member is missing or no object.
pub open spec fn read_object(json: Json, key: Seq<char>) -> Option<Json> {
    match json.member(key) {
        Some(v) => if v is Object {
            Some(v)
        } else {
            None
        },
        None => None,
    }
}

/// The claims that a payload holds; `None` where a member that the claims
/// need is missing or of the wrong kind. Members that the claims do not know
/// are passed over.
pub open spec fn claims_of(json: Json) -> Option<ClaimsView> {
    if read_text(json, "sub"@) is Some && read_type(json, "token_type"@) is Some && read_int(
        json,
        "iat"@,
    ) is Some && read_int(json, "exp"@) is Some && read_opt_text(json, "iss"@) is Some
        && read_opt_text(json, "aud"@) is Some && read_opt_text(json, "jti"@) is Some
        && read_opt_text(json, "email"@) is Some && read_opt_role(json, "role"@) is Some
        && read_texts(json, "scopes"@) is Some && read_object(json, "extra"@) is Some {
        Some(
            ClaimsView {
                sub: read_text(json, "sub"@)->Some_0,
                token_type: read_type(json, "token_type"@)->Some_0,
                iat: read_int(json, "iat"@)->Some_0,
                exp: read_int(json, "exp"@)->Some_0,
                iss: read_opt_text(json, "iss"@)->Some_0,
                aud: read_opt_text(json, "aud"@)->Some_0,
                jti: read_opt_text(json, "jti"@)->Some_0,
                email: read_opt_text(json, "email"@)->Some_0,
                role: read_opt_role(json, "role"@)->Some_0,
                scopes: read_texts(json, "scopes"@)->Some_0,
                extra: read_object(json, "extra"@)->Some_0,
            },
        )
    } else {
        None
    }
}

/// What reading `token` under `secret` gives: the claims of a token whose
/// form and signature are good and whose payload holds claims; else the
/// refusal. A payload that holds no claims is an invalid format.
pub open spec fn verified(token: Seq<char>, secret: Seq<char>) -> Result<ClaimsView, JwtError> {
    match hs256_opened(token, secret) {
        Ok(json) => match claims_of(json) {
            Some(claims) => Ok(claims),
            None => Err(JwtError::InvalidFormat),
        },
        Err(fault) => Err(JwtError::of_fault(fault)),
    }
}

/// Claims whose custom claims a token gives back as they were: an object
/// without numbers in floating point, nested no deeper than a payload's
/// member may be.
pub open spec fn plain_extra(c: ClaimsView) -> bool {
    c.extra is Object && c.extra.plain_within((MAX_NESTING - 1) as nat)
}

/// `token` was issued for `claims` under `secret`.
pub open spec fn issued(token: Seq<char>, claims: ClaimsView, secret: Seq<char>) -> bool {
    sealed(token, payload(claims), secret)
}

/// The names of the payload's members differ from one another, and none is
/// `nbf`.
pub proof fn lemma_member_names_differ()
    ensures
        "sub"@ != "token_type"@,
        "sub"@ != "iat"@,
        "sub"@ != "exp"@,
        "sub"@ != "iss"@,
        "sub"@ != "aud"@,
        "sub"@ != "jti"@,
        "sub"@ != "email"@,
        "sub"@ != "role"@,
        "sub"@ != "scopes"@,
        "sub"@ != "extra"@,
        "token_type"@ != "iat"@,
        "token_type"@ != "exp"@,
        "token_type"@ != "iss"@,
        "token_type"@ != "aud"@,
        "token_type"@ != "jti"@,
        "token_type"@ != "email"@,
        "token_type"@ != "role"@,
        "token_type"@ != "scopes"@,
        "token_type"@ != "extra"@,
        "iat"@ != "exp"@,
        "iat"@ != "iss"@,
        "iat"@ != "aud"@,
        "iat"@ != "jti"@,
        "iat"@ != "email"@,
        "iat"@ != "role"@,
        "iat"@ != "scopes"@,
        "iat"@ != "extra"@,
        "exp"@ != "iss"@,
        "exp"@ != "aud"@,
        "exp"@ != "jti"@,
        "exp"@ != "email"@,
        "exp"@ != "role"@,
        "exp"@ != "scopes"@,
        "exp"@ != "extra"@,
        "iss"@ != "aud"@,
        "iss"@ != "jti"@,
        "iss"@ != "email"@,
        "iss"@ != "role"@,
        "iss"@ != "scopes"@,
        "iss"@ != "extra"@,
        "aud"@ != "jti"@,
        "aud"@ != "email"@,
        "aud"@ != "role"@,
        "aud"@ != "scopes"@,
        "aud"@ != "extra"@,
        "jti"@ != "email"@,
        "jti"@ != "role"@,
        "jti"@ != "scopes"@,
        "jti"@ != "extra"@,
        "email"@ != "role"@,
        "email"@ != "scopes"@,
        "email"@ != "extra"@,
        "role"@ != "scopes"@,
        "role"@ != "extra"@,
        "scopes"@ != "extra"@,
        "nbf"@ != "sub"@,
        "nbf"@ != "token_type"@,
        "nbf"@ != "iat"@,
        "nbf"@ != "exp"@,
        "nbf"@ != "iss"@,
        "nbf"@ != "aud"@,
        "nbf"@ != "jti"@,
        "nbf"@ != "email"@,
        "nbf"@ != "role"@,
        "nbf"@ != "scopes"@,
        "nbf"@ != "extra"@,
{
    reveal_strlit("sub");
    reveal_strlit("token_type");
    reveal_strlit("iat");
    reveal_strlit("exp");
    reveal_strlit("iss");
    reveal_strlit("aud");
    reveal_strlit("jti");
    reveal_strlit("email");
    reveal_strlit("role");
    reveal_strlit("scopes");
    reveal_strlit("extra");
    reveal_strlit("nbf");
    assert("sub"@.len() == 3 && "iat"@.len() == 3 && "exp"@.len() == 3 && "iss"@.len() == 3);
    assert("aud"@.len() == 3 && "jti"@.len() == 3 && "nbf"@.len() == 3);
    assert("token_type"@.len() == 10 && "email"@.len() == 5 && "role"@.len() == 4);
    assert("scopes"@.len() == 6 && "extra"@.len() == 5);
    assert("sub"@[0] == 's' && "iat"@[0] == 'i' && "exp"@[0] == 'e' && "iss"@[0] == 'i');
    assert("aud"@[0] == 'a' && "jti"@[0] == 'j' && "nbf"@[0] == 'n');
    assert("iat"@[1] == 'a' && "iss"@[1] == 's');
    assert("email"@[1] == 'm' && "extra"@[1] == 'x');
}

/// An optional text as a JSON value: the text, or null.
fn opt_text_value(t: &Option<String>) -> (v: serde_json::Value)
    ensures
        json_of(v) == opt_text_json(opt_text(*t)),
{
    match t {
        Some(s) => from_text(s.as_str()),
        None => null(),
    }
}

/// A list of scopes as a JSON value: the list of their text forms.
fn scopes_value(scopes: &Vec<TokenScope>) -> (v: serde_json::Value)
    ensures
        json_of(v) == texts_json(TokenScope::texts(scopes@)),
{
    let mut items: Vec<serde_json::Value> = Vec::new();
    let mut i: usize = 0;
    while i < scopes.len()
        invariant
            i <= scopes.len(),
            items.len() == i,
            forall|k: int| 0 <= k < i ==> json_of(#[trigger] items@[k]) == Json::Text(scopes@[k].text()),
        decreases scopes.len() - i,
    {
        items.push(from_text(scopes[i].as_str()));
        i += 1;
    }
    assert(jsons_of(items@) =~= TokenScope::texts(scopes@).map_values(
        |s: Seq<char>| Json::Text(s),
    ));
    from_list(items)
}

/// The payload of a token with these claims, as a JSON value.
pub fn to_json(claims: &TokenClaims) -> (v: serde_json::Value)
    ensures
        json_of(v) == payload(claims@),
{
    let mut obj = empty_object();
    insert(&mut obj, "sub", from_text(claims.sub.as_str()));
    insert(&mut obj, "token_type", from_text(claims.token_type.wire_str()));
    insert(&mut obj, "iat", from_int(claims.iat));
    insert(&mut obj, "exp", from_int(claims.exp));
    insert(&mut obj, "iss", opt_text_value(&claims.iss));
    insert(&mut obj, "aud", opt_text_value(&claims.aud));
    insert(&mut obj, "jti", opt_text_value(&claims.jti));
    insert(&mut obj, "email", opt_text_value(&claims.email));
    let role = match claims.role {
        Some(r) => from_text(r.to_str()),
        None => null(),
    };
    insert(&mut obj, "role", role);
    insert(&mut obj, "scopes", scopes_value(&claims.scopes));
    insert(&mut obj, "extra", duplicate(&claims.extra));
    obj
}

/// The text under `key` of a JSON value.
fn text_member(obj: &serde_json::Value, key: &str) -> (found: Option<String>)
    ensures
        read_text(json_of(*obj), key@) == opt_text(found),
{
    match member(obj, key) {
        Some(v) => match as_text(v) {
            Some(s) => Some(s.to_owned()),
            None => None,
        },
        None => None,
    }
}

/// The optional text under `key` of a JSON value.
fn opt_text_member(obj: &serde_json::Value, key: &str) -> (found: Option<Option<String>>)
    ensures
        match found {
            Some(t) => read_opt_text(json_of(*obj), key@) == Some(opt_text(t)),
            None => read_opt_text(json_of(*obj), key@) is None,
        },
{
    match member(obj, key) {
        Some(v) => {
            if is_null(v) {
                Some(None)
            } else {
                match as_text(v) {
                    Some(s) => Some(Some(s.to_owned())),
                    None => None,
                }
            }
        },
        None => Some(None),
    }
}

/// The integer under `key` of a JSON value.
fn int_member(obj: &serde_json::Value, key: &str) -> (found: Option<i64>)
    ensures
        match found {
            Some(n) => read_int(json_of(*obj), key@) == Some(n as int),
            None => read_int(json_of(*obj), key@) is None,
        },
{
    match member(obj, key) {
        Some(v) => as_int(v),
        None => None,
    }
}

/// The scopes under `key` of a JSON value: each text is read as a scope, a
/// text outside the fixed vocabulary as a custom scope.
fn scopes_member(obj: &serde_json::Value, key: &str) -> (found: Option<Vec<TokenScope>>)
    ensures
        match found {
            Some(scopes) => read_texts(json_of(*obj), key@) == Some(TokenScope::texts(scopes@)),
            None => read_texts(json_of(*obj), key@) is None,
        },
{
    let list = match member(obj, key) {
        Some(v) => v,
        None => {
            return None;
        },
    };
    let items = match as_list(list) {
        Some(items) => items,
        None => {
            return None;
        },
    };
    let ghost docs = jsons_of(items@);
    let mut scopes: Vec<TokenScope> = Vec::new();
    let mut i: usize = 0;
    while i < items.len()
        invariant
            i <= items.len(),
            scopes.len() == i,
            docs == jsons_of(items@),
            json_of(*obj).member(key@) == Some(Json::List(docs)),
            forall|k: int| 0 <= k < i ==> #[trigger] docs[k] == Json::Text(scopes@[k].text()),
        decreases items.len() - i,
    {
        match as_text(&items[i]) {
            Some(s) => {
                scopes.push(TokenScope::parse(s));
            },
            None => {
                assert(!(docs[i as int] is Text));
                return None;
            },
        }
        i += 1;
    }
    assert(all_text(docs));
    assert(texts_of(docs) =~= TokenScope::texts(scopes@));
    Some(scopes)
}

/// The claims that a payload holds; `None` where it holds none.
pub fn from_json(v: &serde_json::Value) -> (found: Option<TokenClaims>)
    ensures
        match found {
            Some(claims) => claims_of(json_of(*v)) == Some(claims@),
            None => claims_of(json_of(*v)) is None,
        },
{
    let sub = match text_member(v, "sub") {
        Some(sub) => sub,
        None => {
            return None;
        },
    };
    let token_type = match text_member(v, "token_type") {
        Some(name) => match TokenType::from_wire(name.as_str()) {
            Some(t) => t,
            None => {
                return None;
            },
        },
        None => {
            return None;
        },
    };
    let iat = match int_member(v, "iat") {
        Some(n) => n,
        None => {
            return None;
        },
    };
    let exp = match int_member(v, "exp") {
        Some(n) => n,
        None => {
            return None;
        },
    };
    let iss = match opt_text_member(v, "iss") {
        Some(t) => t,
        None => {
            return None;
        },
    };
    let aud = match opt_text_member(v, "aud") {
        Some(t) => t,
        None => {
            return None;
        },
    };
    let jti = match opt_text_member(v, "jti") {
        Some(t) => t,
        None => {
            return None;
        },
    };
    let email = match opt_text_member(v, "email") {
        Some(t) => t,
        None => {
            return None;
        },
    };
    let role = match opt_text_member(v, "role") {
        Some(Some(name)) => match Role::from_str(name.as_str()) {
            Some(r) => Some(r),
            None => {
                return None;
            },
        },
        Some(None) => None,
        None => {
            return None;
        },
    };
    let scopes = match scopes_member(v, "scopes") {
        Some(scopes) => scopes,
        None => {
            return None;
        },
    };
    let extra = match member(v, "extra") {
        Some(extra) => {
            if is_object(extra) {
                duplicate(extra)
            } else {
                return None;
            }
        },
        None => {
            return None;
        },
    };
    Some(TokenClaims { sub, token_type, iat, exp, iss, aud, jti, email, role, scopes, extra })
}

/// Claims of one of the four purposes whose times fit 64 bits and whose
/// custom claims are an object are read back from their payload as they
/// were.
pub proof fn lemma_payload_holds_claims(c: ClaimsView)
    requires
        c.token_type.is_purpose(),
        i64::MIN <= c.iat <= i64::MAX,
        i64::MIN <= c.exp <= i64::MAX,
        c.extra is Object,
    ensures
        claims_of(payload(c)) == Some(c),
{
    lemma_member_names_differ();
    let json = payload(c);
    assert(read_text(json, "sub"@) == Some(c.sub));
    TokenType::lemma_wire_names_type(c.token_type);
    assert(read_type(json, "token_type"@) == Some(c.token_type));
    assert(read_int(json, "iat"@) == Some(c.iat));
    assert(read_int(json, "exp"@) == Some(c.exp));
    assert(read_opt_text(json, "iss"@) == Some(c.iss));
    assert(read_opt_text(json, "aud"@) == Some(c.aud));
    assert(read_opt_text(json, "jti"@) == Some(c.jti));
    assert(read_opt_text(json, "email"@) == Some(c.email));
    if c.role is Some {
        Role::lemma_name_names_role(c.role->Some_0);
    }
    assert(read_opt_role(json, "role"@) == Some(c.role));
    let items = c.scopes.map_values(|s: Seq<char>| Json::Text(s));
    assert(json.member("scopes"@) == Some(Json::List(items)));
    assert(all_text(items));
    assert(texts_of(items) =~= c.scopes);
    assert(read_texts(json, "scopes"@) == Some(c.scopes));
    assert(read_object(json, "extra"@) == Some(c.extra));
}

/// The payload of claims with plain custom claims is sealable.
pub proof fn lemma_payload_is_sealable(c: ClaimsView)
    requires
        plain_extra(c),
    ensures
        sealable(payload(c)),
{
    lemma_member_names_differ();
    let json = payload(c);
    let m = json.members();
    let below = (MAX_NESTING - 1) as nat;
    assert forall|k: Seq<char>| m.contains_key(k) implies (#[trigger] m[k]).plain_within(below) by {
        if k == "extra"@ {
            assert(m[k] == c.extra);
        } else if k == "scopes"@ {
            let items = c.scopes.map_values(|s: Seq<char>| Json::Text(s));
            assert(m[k] == Json::List(items));
            assert forall|i: int| 0 <= i < items.len() implies (#[trigger] items[i]).plain_within(
                (below - 1) as nat,
            ) by {
                assert(items[i] is Text);
            }
        } else {
            assert(m[k].is_scalar());
        }
    }
    assert(json.member("nbf"@) is None);
}

/// Issues the token for `claims`, signed under `secret`. This never fails.
/// Of claims with plain custom claims, the token is read back as the same
/// claims under the same secret, and under any other secret is read as the
/// same claims or refused for its signature.
pub fn issue(claims: &TokenClaims, secret: &str) -> (made: Result<String, crate::errors::error::CoreError>)
    ensures
        made is Ok,
        plain_extra(claims@) ==> issued(made->Ok_0@, claims@, secret@),
{
    let body = to_json(claims);
    proof {
        if plain_extra(claims@) {
            lemma_payload_is_sealable(claims@);
        }
    }
    match hs256_seal(&body, secret) {
        Ok(token) => Ok(token),
        Err(e) => Err(crate::errors::error::CoreError::Jwt(JwtError::from(fault(&e)))),
    }
}

/// Reads `token` under `secret`: the claims of a token whose form and
/// signature are good and whose payload holds claims, else the refusal.
/// Whether the claims have ended plays no part.
pub fn verify(token: &str, secret: &str) -> (read: Result<TokenClaims, crate::errors::error::CoreError>)
    ensures
        match read {
            Ok(claims) => verified(token@, secret@) == Ok::<ClaimsView, JwtError>(claims@),
            Err(e) => verified(token@, secret@) is Err && e
                == crate::errors::error::CoreError::Jwt(verified(token@, secret@)->Err_0),
        },
{
    match hs256_open(token, secret) {
        Ok(body) => match from_json(&body) {
            Some(claims) => Ok(claims),
            None => Err(crate::errors::error::CoreError::Jwt(JwtError::InvalidFormat)),
        },
        Err(e) => Err(crate::errors::error::CoreError::Jwt(JwtError::from(fault(&e)))),
    }
}

/// A token is read back, under the secret it was issued with, as the claims
/// it was issued for.
pub proof fn lemma_issued_token_verifies(token: Seq<char>, claims: ClaimsView, secret: Seq<char>)
    requires
        issued(token, claims, secret),
        claims.token_type.is_purpose(),
        i64::MIN <= claims.iat <= i64::MAX,
        i64::MIN <= claims.exp <= i64::MAX,
        claims.extra is Object,
    ensures
        verified(token, secret) == Ok::<ClaimsView, JwtError>(claims),
{
    lemma_payload_holds_claims(claims);
}

/// Under any secret, a token is read as the claims it was issued for or is
/// refused for its signature.
pub proof fn lemma_issued_token_under_any_secret(
    token: Seq<char>,
    claims: ClaimsView,
    secret: Seq<char>,
    other: Seq<char>,
)
    requires
        issued(token, claims, secret),
        claims.token_type.is_purpose(),
        i64::MIN <= claims.iat <= i64::MAX,
        i64::MIN <= claims.exp <= i64::MAX,
        claims.extra is Object,
    ensures
        verified(token, other) == Ok::<ClaimsView, JwtError>(claims) || verified(token, other)
            == Err::<ClaimsView, JwtError>(JwtError::InvalidSignature),
{
    lemma_payload_holds_claims(claims);
    assert(hs256_opened(token, other) == Ok::<Json, JwtFault>(payload(claims)) || hs256_opened(
        token,
        other,
    ) == Err::<Json, JwtFault>(JwtFault::InvalidSignature));
}

} // verus!
