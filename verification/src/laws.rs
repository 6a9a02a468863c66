//! What holds of the authority across its operations.

use crate::codec::{
    issued, lemma_issued_token_under_any_secret, lemma_issued_token_verifies, verified,
};
use crate::config::token::TokenConfig;
use crate::database::token::{
    active_of, has_match, is_first_match, key_text, lemma_lookup_at,
    lemma_lookup_finds_exactly_matches, lookup, revoke, revoke_user, rotate, touch, SessionKey,
};
use crate::errors::error::CoreError;
use crate::errors::jwt::JwtError;
use crate::errors::response::{status_of, UNAUTHORIZED};
use crate::models::role::Role;
use crate::models::token_claims::ClaimsView;
use crate::models::token_session::SessionView;
use crate::models::token_type::TokenType;
use crate::services::token::{
    authorize, invalid_token, minted, refresh_target, session_opened, verify_for,
};
use vstd::prelude::*;

verus! {

/// After every session of a user was revoked the user has no active session;
/// and where the user had none before, the revocation changed nothing.
pub proof fn law_bulk_revocation_leaves_none_active(sessions: Seq<SessionView>, user_id: Seq<char>)
    ensures
        active_of(revoke_user(sessions, user_id), user_id).len() == 0,
        active_of(sessions, user_id).len() == 0 ==> revoke_user(sessions, user_id) == sessions,
{
    let after = revoke_user(sessions, user_id);
    let active = |s: SessionView| s.user_id == user_id && s.is_active;
    if active_of(after, user_id).len() > 0 {
        let hit = active_of(after, user_id)[0];
        assert(after.filter(active).contains(hit));
        after.lemma_filter_contains_rev(active, hit);
        let i = choose|i: int| 0 <= i < after.len() && after[i] == hit;
        assert(!after[i].is_active || after[i].user_id != user_id);
    }
    if active_of(sessions, user_id).len() == 0 {
        assert forall|i: int| 0 <= i < sessions.len() implies #[trigger] after[i] == sessions[i] by {
            if sessions[i].user_id == user_id && sessions[i].is_active {
                sessions.lemma_filter_contains(active, i);
                assert(active_of(sessions, user_id).contains(sessions[i]));
            }
        }
        assert(after =~= sessions);
    }
}

/// Claims of one of the four purposes whose times fit 64 bits and whose
/// custom claims are an object: the claims that a token can carry.
pub open spec fn carriable(claims: ClaimsView) -> bool {
    &&& claims.token_type.is_purpose()
    &&& i64::MIN <= claims.iat <= i64::MAX
    &&& i64::MIN <= claims.exp <= i64::MAX
    &&& claims.extra is Object
}

/// The codec gives back what it was given: a token issued for claims is
/// read, under the secret it was issued with, as those claims. So issuing
/// the claims that were read gives a token that is read as the same claims
/// again.
pub proof fn law_codec_round_trip(token: Seq<char>, claims: ClaimsView, secret: Seq<char>)
    requires
        issued(token, claims, secret),
        carriable(claims),
    ensures
        verified(token, secret) == Ok::<ClaimsView, JwtError>(claims),
{
    lemma_issued_token_verifies(token, claims, secret);
}

/// A token is never accepted for another purpose than the one it was issued
/// for: read as a token of another purpose, under whatever secret, it is
/// refused for its signature.
pub proof fn law_wrong_purpose_is_refused(
    token: Seq<char>,
    claims: ClaimsView,
    secret: Seq<char>,
    other_secret: Seq<char>,
    other_purpose: TokenType,
)
    requires
        issued(token, claims, secret),
        carriable(claims),
        claims.token_type != other_purpose,
    ensures
        verify_for(token, other_secret, other_purpose) == Err::<ClaimsView, JwtError>(
            JwtError::InvalidSignature,
        ),
{
    lemma_issued_token_under_any_secret(token, claims, secret, other_secret);
}

/// Another secret reads nothing else out of a token: under whatever secret
/// and for whatever purpose a token is read, it is read as the claims it
/// was issued for, and then for their purpose only, or it is refused for
/// its signature. That every other secret refuses it is not stated: it
/// rests on the strength of the signature and not on this library.
pub proof fn law_other_secret_reads_nothing_else(
    token: Seq<char>,
    claims: ClaimsView,
    secret: Seq<char>,
    other_secret: Seq<char>,
    purpose: TokenType,
)
    requires
        issued(token, claims, secret),
        carriable(claims),
    ensures
        verify_for(token, other_secret, purpose) == Ok::<ClaimsView, JwtError>(claims)
            && claims.token_type == purpose || verify_for(token, other_secret, purpose)
            == Err::<ClaimsView, JwtError>(JwtError::InvalidSignature),
{
    lemma_issued_token_under_any_secret(token, claims, secret, other_secret);
}

/// The access token of a login that was just opened authenticates its user:
/// checked against the store that holds the new session, it is accepted with
/// the user as its subject. This holds when the identifier of the new access
/// token is not already the identifier of a stored session.
pub proof fn law_new_session_verifies(
    config: TokenConfig,
    before: Seq<SessionView>,
    access: Seq<char>,
    refresh: Seq<char>,
    session: SessionView,
    user_id: Seq<char>,
    email: Seq<char>,
    role: Role,
    device_info: Option<Seq<char>>,
    scopes: Seq<Seq<char>>,
)
    requires
        config.well_formed(),
        session_opened(config, access, refresh, session, user_id, email, role, device_info, scopes),
        !has_match(before, SessionKey::AccessJti, session.access_token_jti),
    ensures
        authorize(
            verify_for(access, config.jwt_access_secret@, TokenType::Access),
            before.push(session),
        ) matches Ok(claims) && claims.sub == user_id,
{
    let (ac, rc) = choose|ac: ClaimsView, rc: ClaimsView|
        #![trigger issued(access, ac, config.jwt_access_secret@), issued(refresh, rc, config.jwt_refresh_secret@)]
        {
            &&& issued(access, ac, config.jwt_access_secret@)
            &&& minted(
                ac,
                TokenType::Access,
                user_id,
                Some(email),
                Some(role),
                scopes,
                config.access_token_expires_in as int,
            )
            &&& issued(refresh, rc, config.jwt_refresh_secret@)
            &&& session.access_token_jti == ac.jti->Some_0
        };
    lemma_issued_token_verifies(access, ac, config.jwt_access_secret@);
    let after = before.push(session);
    let jti = session.access_token_jti;
    assert(after[before.len() as int] == session);
    assert forall|k: int| 0 <= k < before.len() implies key_text(
        #[trigger] after[k],
        SessionKey::AccessJti,
    ) != jti by {
        assert(after[k] == before[k]);
        assert(key_text(before[k], SessionKey::AccessJti) != jti);
    }
    assert(is_first_match(after, before.len() as int, SessionKey::AccessJti, jti));
    lemma_lookup_at(after, before.len() as int, SessionKey::AccessJti, jti);
}

/// Revoking a session changes no text by which sessions are found: the
/// first match of a lookup stays where it was.
proof fn lemma_revoke_keeps_first_match(
    sessions: Seq<SessionView>,
    id: Seq<char>,
    key: SessionKey,
    value: Seq<char>,
    i: int,
)
    requires
        is_first_match(sessions, i, key, value),
    ensures
        is_first_match(revoke(sessions, id), i, key, value),
{
    let after = revoke(sessions, id);
    assert(key_text(after[i], key) == key_text(sessions[i], key));
    assert forall|k: int| 0 <= k < i implies key_text(#[trigger] after[k], key) != value by {
        assert(key_text(after[k], key) == key_text(sessions[k], key));
    }
}

/// After a session was revoked, the access token that it owns is refused,
/// though the token's form and signature are as good as before.
pub proof fn law_revoked_session_refuses_access(
    sessions: Seq<SessionView>,
    claims: ClaimsView,
    jti: Seq<char>,
    id: Seq<char>,
)
    requires
        claims.jti == Some(jti),
        lookup(sessions, SessionKey::AccessJti, jti) matches Some(owner) && owner.id == id,
    ensures
        authorize(Ok(claims), revoke(sessions, id)) == Err::<ClaimsView, CoreError>(
            invalid_token(),
        ),
{
    let i = choose|i: int| is_first_match(sessions, i, SessionKey::AccessJti, jti);
    lemma_revoke_keeps_first_match(sessions, id, SessionKey::AccessJti, jti, i);
    lemma_lookup_at(revoke(sessions, id), i, SessionKey::AccessJti, jti);
}

/// A refresh token whose session is revoked renews nothing: whenever it is
/// presented, it is refused as an invalid token.
pub proof fn law_revoked_session_refuses_refresh(
    sessions: Seq<SessionView>,
    claims: ClaimsView,
    jti: Seq<char>,
    now: int,
)
    requires
        claims.jti == Some(jti),
        lookup(sessions, SessionKey::RefreshJti, jti) matches Some(owner) && !owner.is_active,
    ensures
        refresh_target(Ok(claims), sessions, now) == Err::<SessionView, CoreError>(invalid_token()),
{
}

/// After a session was revoked, the refresh token that it owns renews
/// nothing.
pub proof fn law_revocation_stops_refresh(
    sessions: Seq<SessionView>,
    claims: ClaimsView,
    jti: Seq<char>,
    id: Seq<char>,
    now: int,
)
    requires
        claims.jti == Some(jti),
        lookup(sessions, SessionKey::RefreshJti, jti) matches Some(owner) && owner.id == id,
    ensures
        refresh_target(Ok(claims), revoke(sessions, id), now) == Err::<SessionView, CoreError>(
            invalid_token(),
        ),
{
    let i = choose|i: int| is_first_match(sessions, i, SessionKey::RefreshJti, jti);
    lemma_revoke_keeps_first_match(sessions, id, SessionKey::RefreshJti, jti, i);
    lemma_lookup_at(revoke(sessions, id), i, SessionKey::RefreshJti, jti);
}

/// A refresh token renews its session once: after the session was given new
/// token identifiers, the token that renewed it finds no session and is
/// refused as invalid. This holds when no other session has the same
/// refresh-token identifier and the new identifier differs from the old
/// one.
pub proof fn law_rotated_token_renews_no_more(
    sessions: Seq<SessionView>,
    claims: ClaimsView,
    jti: Seq<char>,
    id: Seq<char>,
    access_jti: Seq<char>,
    refresh_jti: Seq<char>,
    now: int,
    later: int,
)
    requires
        claims.jti == Some(jti),
        refresh_jti != jti,
        forall|k: int|
            0 <= k < sessions.len() && (#[trigger] sessions[k]).refresh_token_jti == jti
                ==> sessions[k].id == id,
    ensures
        refresh_target(Ok(claims), rotate(sessions, id, access_jti, refresh_jti, now), later)
            == Err::<SessionView, CoreError>(invalid_token()),
{
    let after = rotate(sessions, id, access_jti, refresh_jti, now);
    assert forall|k: int| 0 <= k < after.len() implies key_text(
        #[trigger] after[k],
        SessionKey::RefreshJti,
    ) != jti by {
        if sessions[k].id != id {
            assert(after[k] == sessions[k]);
        }
    }
    lemma_lookup_finds_exactly_matches(after, SessionKey::RefreshJti, jti);
}

/// Every refused credential gets the same answer at the edge: whatever a
/// presented token is refused for when it is read, when the store is asked
/// to vouch for it, or when it is to renew a session, the status is
/// unauthorized. A forged token, an ended one and one whose session is
/// missing or revoked cannot be told apart by their status.
pub proof fn law_refused_credentials_are_unauthorized(
    token: Seq<char>,
    secret: Seq<char>,
    purpose: TokenType,
    sessions: Seq<SessionView>,
    now: int,
)
    ensures
        verify_for(token, secret, purpose) matches Err(e) ==> status_of(CoreError::Jwt(e))
            == UNAUTHORIZED,
        authorize(verify_for(token, secret, purpose), sessions) matches Err(e) ==> status_of(e)
            == UNAUTHORIZED,
        refresh_target(verify_for(token, secret, purpose), sessions, now) matches Err(e)
            ==> status_of(e) == UNAUTHORIZED,
{
}

/// Revocation is final: no operation of the store makes a revoked session
/// active again, and revoking twice is revoking once.
pub proof fn law_revocation_is_final(
    sessions: Seq<SessionView>,
    i: int,
    id: Seq<char>,
    user_id: Seq<char>,
    access_jti: Seq<char>,
    refresh_jti: Seq<char>,
    now: int,
)
    requires
        0 <= i < sessions.len(),
        !sessions[i].is_active,
    ensures
        !revoke(sessions, id)[i].is_active,
        !revoke_user(sessions, user_id)[i].is_active,
        !touch(sessions, id, now)[i].is_active,
        !rotate(sessions, id, access_jti, refresh_jti, now)[i].is_active,
        revoke(revoke(sessions, id), id) == revoke(sessions, id),
{
    assert(revoke(revoke(sessions, id), id) =~= revoke(sessions, id));
}

} // verus!
