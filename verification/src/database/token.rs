//! The session store: the records of all logins, found by session id and by
//! either token identifier, revoked singly or for a whole user, and swept
//! when old.

use crate::clock::{is_timestamp, unix_now};
use crate::errors::db::DatabaseError;
use crate::errors::error::CoreError;
use crate::models::token_session::{SessionView, TokenSession};
use crate::text::str_eq;
use vstd::prelude::*;

verus! {

/// How long a session is kept after its creation before a sweep deletes it:
/// thirty days, in seconds.
pub const RETENTION_SECS: i64 = 2_592_000;

/// The text by which a session can be looked up.
#[derive(Debug, Clone, Copy, PartialEq, Eq, Structural)]
pub enum SessionKey {
    Id,
    AccessJti,
    RefreshJti,
}

/// The text that a session has under `key`.
pub open spec fn key_text(session: SessionView, key: SessionKey) -> Seq<char> {
    match key {
        SessionKey::Id => session.id,
        SessionKey::AccessJti => session.access_token_jti,
        SessionKey::RefreshJti => session.refresh_token_jti,
    }
}

/// Whether the record at `i` is the first whose `key` is `value`.
pub open spec fn is_first_match(
    sessions: Seq<SessionView>,
    i: int,
    key: SessionKey,
    value: Seq<char>,
) -> bool {
    &&& 0 <= i < sessions.len()
    &&& key_text(sessions[i], key) == value
    &&& forall|k: int| 0 <= k < i ==> key_text(#[trigger] sessions[k], key) != value
}

/// Whether some record has `value` under `key`.
pub open spec fn has_match(sessions: Seq<SessionView>, key: SessionKey, value: Seq<char>) -> bool {
    exists|i: int| 0 <= i < sessions.len() && key_text(#[trigger] sessions[i], key) == value
}

/// The first record whose `key` is `value`, if there is one.
pub open spec fn lookup(sessions: Seq<SessionView>, key: SessionKey, value: Seq<char>) -> Option<
    SessionView,
> {
    if exists|i: int| is_first_match(sessions, i, key, value) {
        Some(sessions[choose|i: int| is_first_match(sessions, i, key, value)])
    } else {
        None
    }
}

/// No two records share a session id.
pub open spec fn unique_ids(sessions: Seq<SessionView>) -> bool {
    forall|i: int, j: int|
        0 <= i < j < sessions.len() ==> (#[trigger] sessions[i]).id != (#[trigger] sessions[j]).id
}

/// The session, revoked.
pub open spec fn revoked(session: SessionView) -> SessionView {
    SessionView { is_active: false, ..session }
}

/// The records after the session `id` was revoked: that session is inactive,
/// every other record is as before.
pub open spec fn revoke(sessions: Seq<SessionView>, id: Seq<char>) -> Seq<SessionView> {
    sessions.map_values(
        |s: SessionView|
            if s.id == id {
                revoked(s)
            } else {
                s
            },
    )
}

/// The records after every session of `user_id` was revoked.
pub open spec fn revoke_user(sessions: Seq<SessionView>, user_id: Seq<char>) -> Seq<SessionView> {
    sessions.map_values(
        |s: SessionView|
            if s.user_id == user_id {
                revoked(s)
            } else {
                s
            },
    )
}

/// The records after the session `id` was seen active at the second `now`.
pub open spec fn touch(sessions: Seq<SessionView>, id: Seq<char>, now: int) -> Seq<SessionView> {
    sessions.map_values(
        |s: SessionView|
            if s.id == id {
                SessionView { last_active_at: now, ..s }
            } else {
                s
            },
    )
}

/// The records after the session `id` was given a new pair of token
/// identifiers at the second `now`: its former identifiers are gone.
pub open spec fn rotate(
    sessions: Seq<SessionView>,
    id: Seq<char>,
    access_jti: Seq<char>,
    refresh_jti: Seq<char>,
    now: int,
) -> Seq<SessionView> {
    sessions.map_values(
        |s: SessionView|
            if s.id == id {
                SessionView {
                    access_token_jti: access_jti,
                    refresh_token_jti: refresh_jti,
                    last_active_at: now,
                    ..s
                }
            } else {
                s
            },
    )
}

/// The records that a sweep keeps: those created at or after `cutoff`.
pub open spec fn sweep(sessions: Seq<SessionView>, cutoff: int) -> Seq<SessionView> {
    sessions.filter(|s: SessionView| s.created_at >= cutoff)
}

/// The active sessions of `user_id`, in the order of their creation.
pub open spec fn active_of(sessions: Seq<SessionView>, user_id: Seq<char>) -> Seq<SessionView> {
    sessions.filter(|s: SessionView| s.user_id == user_id && s.is_active)
}

/// The views of a list of sessions, in order.
pub open spec fn views(sessions: Seq<TokenSession>) -> Seq<SessionView> {
    sessions.map_values(|s: TokenSession| s@)
}

/// A change to a session's record.
enum Change {
    Revoke,
    Touch { now: i64 },
    Rotate { access_jti: String, refresh_jti: String, now: i64 },
}

/// The session after the change.
spec fn changed(session: SessionView, change: Change) -> SessionView {
    match change {
        Change::Revoke => revoked(session),
        Change::Touch { now } => SessionView { last_active_at: now as int, ..session },
        Change::Rotate { access_jti, refresh_jti, now } => SessionView {
            access_token_jti: access_jti@,
            refresh_token_jti: refresh_jti@,
            last_active_at: now as int,
            ..session
        },
    }
}

/// Whether the session is the one with the id `value` or, with `by_user`,
/// one of the user `value`.
spec fn selected(session: SessionView, by_user: bool, value: Seq<char>) -> bool {
    if by_user {
        session.user_id == value
    } else {
        session.id == value
    }
}

/// The records after the change was made to every selected session.
spec fn change_all(
    sessions: Seq<SessionView>,
    by_user: bool,
    value: Seq<char>,
    change: Change,
) -> Seq<SessionView> {
    sessions.map_values(
        |s: SessionView|
            if selected(s, by_user, value) {
                changed(s, change)
            } else {
                s
            },
    )
}

/// The first match is the record at any index that is a first match.
pub proof fn lemma_lookup_at(sessions: Seq<SessionView>, i: int, key: SessionKey, value: Seq<char>)
    requires
        is_first_match(sessions, i, key, value),
    ensures
        lookup(sessions, key, value) == Some(sessions[i]),
{
    let j = choose|j: int| is_first_match(sessions, j, key, value);
    if j < i {
        assert(key_text(sessions[j], key) == value);
    } else if i < j {
        assert(key_text(sessions[i], key) == value);
    }
}

/// Where no record matches, nothing is found; where one matches, the record
/// found is a match.
pub proof fn lemma_lookup_finds_exactly_matches(
    sessions: Seq<SessionView>,
    key: SessionKey,
    value: Seq<char>,
)
    ensures
        lookup(sessions, key, value) is Some <==> has_match(sessions, key, value),
        lookup(sessions, key, value) matches Some(found) ==> key_text(found, key) == value
            && sessions.contains(found),
{
    if has_match(sessions, key, value) {
        let i = choose|i: int| 0 <= i < sessions.len() && key_text(#[trigger] sessions[i], key) == value;
        lemma_first_match_exists(sessions, i, key, value);
    }
    if lookup(sessions, key, value) is Some {
        let j = choose|j: int| is_first_match(sessions, j, key, value);
        assert(key_text(sessions[j], key) == value);
    }
}

/// Below any match there is a first match.
pub proof fn lemma_first_match_exists(
    sessions: Seq<SessionView>,
    i: int,
    key: SessionKey,
    value: Seq<char>,
)
    requires
        0 <= i < sessions.len(),
        key_text(sessions[i], key) == value,
    ensures
        exists|j: int| 0 <= j <= i && is_first_match(sessions, j, key, value),
    decreases i,
{
    if forall|k: int| 0 <= k < i ==> key_text(#[trigger] sessions[k], key) != value {
        assert(is_first_match(sessions, i, key, value));
    } else {
        let k = choose|k: int| 0 <= k < i && key_text(#[trigger] sessions[k], key) == value;
        lemma_first_match_exists(sessions, k, key, value);
    }
}

/// The store of sessions. A well-formed store holds no two records with the
/// same session id; every operation keeps a well-formed store well formed.
#[derive(Debug)]
pub struct TokenRepository {
    sessions: Vec<TokenSession>,
}

impl View for TokenRepository {
    type V = Seq<SessionView>;

    closed spec fn view(&self) -> Seq<SessionView> {
        views(self.sessions@)
    }
}

impl TokenRepository {
    /// No two records share a session id.
    pub open spec fn well_formed(&self) -> bool {
        unique_ids(self@)
    }

    /// An empty store.
    pub fn new() -> (repo: Self)
        ensures
            repo@ == Seq::<SessionView>::empty(),
            repo.well_formed(),
    {
        let repo = TokenRepository { sessions: Vec::new() };
        assert(views(repo.sessions@) =~= Seq::<SessionView>::empty());
        repo
    }

    /// The number of records in the store.
    pub fn len(&self) -> (n: usize)
        ensures
            n == self@.len(),
    {
        self.sessions.len()
    }

    /// The index of the first record whose `key` is `value`.
    fn position(&self, key: SessionKey, value: &str) -> (found: Option<usize>)
        ensures
            match found {
                Some(i) => is_first_match(self@, i as int, key, value@),
                None => !has_match(self@, key, value@),
            },
    {
        let mut i: usize = 0;
        while i < self.sessions.len()
            invariant
                i <= self.sessions.len(),
                forall|k: int| 0 <= k < i ==> key_text(#[trigger] self@[k], key) != value@,
            decreases self.sessions.len() - i,
        {
            let session = &self.sessions[i];
            let text = match key {
                SessionKey::Id => session.id.as_str(),
                SessionKey::AccessJti => session.access_token_jti.as_str(),
                SessionKey::RefreshJti => session.refresh_token_jti.as_str(),
            };
            if str_eq(text, value) {
                assert(key_text(self@[i as int], key) == value@);
                return Some(i);
            }
            i += 1;
        }
        None
    }

    /// The first record whose `key` is `value`, if there is one.
    fn find(&self, key: SessionKey, value: &str) -> (found: Option<TokenSession>)
        ensures
            match found {
                Some(session) => lookup(self@, key, value@) == Some(session@),
                None => lookup(self@, key, value@) is None,
            },
    {
        match self.position(key, value) {
            Some(i) => {
                proof {
                    lemma_lookup_at(self@, i as int, key, value@);
                }
                Some(self.sessions[i].clone())
            },
            None => {
                proof {
                    lemma_lookup_finds_exactly_matches(self@, key, value@);
                }
                None
            },
        }
    }

    /// Stores a new session and returns it. A session whose id the store
    /// already holds is refused as a conflict, and the store stays as it was.
    pub fn create_session(&mut self, session: TokenSession) -> (created: Result<TokenSession, CoreError>)
        requires
            old(self).well_formed(),
        ensures
            final(self).well_formed(),
            match created {
                Ok(stored) => {
                    &&& !has_match(old(self)@, SessionKey::Id, session@.id)
                    &&& final(self)@ == old(self)@.push(session@)
                    &&& stored@ == session@
                },
                Err(e) => {
                    &&& has_match(old(self)@, SessionKey::Id, session@.id)
                    &&& final(self)@ == old(self)@
                    &&& e matches CoreError::Db(DatabaseError::ConstraintViolation(_))
                },
            },
    {
        match self.position(SessionKey::Id, session.id.as_str()) {
            Some(_) => Err(
                CoreError::Db(
                    DatabaseError::ConstraintViolation("Token session already exists".to_owned()),
                ),
            ),
            None => {
                let stored = session.clone();
                let ghost before = self@;
                self.sessions.push(session);
                proof {
                    assert(self@ =~= before.push(session@));
                    assert forall|i: int, j: int| 0 <= i < j < self@.len() implies (#[trigger] self@[i]).id
                        != (#[trigger] self@[j]).id by {
                        if j == before.len() {
                            assert(key_text(before[i], SessionKey::Id) != session@.id);
                        }
                    }
                }
                Ok(stored)
            },
        }
    }

    /// Makes the change to every selected session.
    fn change_where(&mut self, by_user: bool, value: &str, change: &Change)
        requires
            old(self).well_formed(),
        ensures
            final(self).well_formed(),
            final(self)@ == change_all(old(self)@, by_user, value@, *change),
    {
        let ghost before = self@;
        let mut i: usize = 0;
        while i < self.sessions.len()
            invariant
                i <= self.sessions.len(),
                self@.len() == before.len(),
                forall|k: int|
                    0 <= k < i ==> #[trigger] self@[k] == change_all(before, by_user, value@, *change)[k],
                forall|k: int| i <= k < before.len() ==> #[trigger] self@[k] == before[k],
            decreases self.sessions.len() - i,
        {
            let session = &self.sessions[i];
            assert(session@ == self@[i as int] && self@[i as int] == before[i as int]);
            let ghost target = change_all(before, by_user, value@, *change);
            let hit = if by_user {
                str_eq(session.user_id.as_str(), value)
            } else {
                str_eq(session.id.as_str(), value)
            };
            if hit {
                let mut next = session.clone();
                match change {
                    Change::Revoke => {
                        next.is_active = false;
                    },
                    Change::Touch { now } => {
                        next.last_active_at = *now;
                    },
                    Change::Rotate { access_jti, refresh_jti, now } => {
                        next.access_token_jti = access_jti.clone();
                        next.refresh_token_jti = refresh_jti.clone();
                        next.last_active_at = *now;
                    },
                }
                let ghost prior = self@;
                self.sessions.set(i, next);
                assert(self@ =~= prior.update(i as int, next@));
                assert(next@ == changed(before[i as int], *change));
            }
            assert(self@[i as int] == target[i as int]);
            i += 1;
        }
        proof {
            let after = change_all(before, by_user, value@, *change);
            assert(self@ =~= after);
            assert forall|a: int, b: int| 0 <= a < b < after.len() implies (#[trigger] after[a]).id
                != (#[trigger] after[b]).id by {
                assert(after[a].id == before[a].id);
                assert(after[b].id == before[b].id);
            }
        }
    }

    /// The session that owns the access-token identifier `jti`, if any. This
    /// never fails.
    pub fn find_by_access_token_jti(&self, jti: String) -> (found: Result<Option<TokenSession>, CoreError>)
        ensures
            found matches Ok(session) && match session {
                Some(session) => lookup(self@, SessionKey::AccessJti, jti@) == Some(session@),
                None => lookup(self@, SessionKey::AccessJti, jti@) is None,
            },
    {
        Ok(self.find(SessionKey::AccessJti, jti.as_str()))
    }

    /// The session that owns the refresh-token identifier `jti`, if any. This
    /// never fails.
    pub fn find_by_refresh_token_jti(&self, jti: String) -> (found: Result<Option<TokenSession>, CoreError>)
        ensures
            found matches Ok(session) && match session {
                Some(session) => lookup(self@, SessionKey::RefreshJti, jti@) == Some(session@),
                None => lookup(self@, SessionKey::RefreshJti, jti@) is None,
            },
    {
        Ok(self.find(SessionKey::RefreshJti, jti.as_str()))
    }

    /// The session with the id `session_id`, if any. This never fails.
    pub fn find_by_id(&self, session_id: String) -> (found: Result<Option<TokenSession>, CoreError>)
        ensures
            found matches Ok(session) && match session {
                Some(session) => lookup(self@, SessionKey::Id, session_id@) == Some(session@),
                None => lookup(self@, SessionKey::Id, session_id@) is None,
            },
    {
        Ok(self.find(SessionKey::Id, session_id.as_str()))
    }

    /// Whether the session `session_id` exists and is active. This never
    /// fails.
    pub fn is_session_active(&self, session_id: String) -> (active: Result<bool, CoreError>)
        ensures
            active matches Ok(yes) && yes == (lookup(self@, SessionKey::Id, session_id@) matches Some(
                session,
            ) && session.is_active),
    {
        match self.find(SessionKey::Id, session_id.as_str()) {
            Some(session) => Ok(session.is_active),
            None => Ok(false),
        }
    }

    /// Revokes the session `session_id`. Revoking a session that is already
    /// revoked, or one that does not exist, changes nothing. This never fails.
    pub fn revoke_session(&mut self, session_id: String) -> (done: Result<(), CoreError>)
        requires
            old(self).well_formed(),
        ensures
            done is Ok,
            final(self).well_formed(),
            final(self)@ == revoke(old(self)@, session_id@),
    {
        self.change_where(false, session_id.as_str(), &Change::Revoke);
        assert(change_all(old(self)@, false, session_id@, Change::Revoke) =~= revoke(
            old(self)@,
            session_id@,
        ));
        Ok(())
    }

    /// Revokes every session of `user_id` in one step. This never fails.
    pub fn revoke_all_user_sessions(&mut self, user_id: String) -> (done: Result<(), CoreError>)
        requires
            old(self).well_formed(),
        ensures
            done is Ok,
            final(self).well_formed(),
            final(self)@ == revoke_user(old(self)@, user_id@),
    {
        self.change_where(true, user_id.as_str(), &Change::Revoke);
        assert(change_all(old(self)@, true, user_id@, Change::Revoke) =~= revoke_user(
            old(self)@,
            user_id@,
        ));
        Ok(())
    }

    /// Records that the session `session_id` was seen active at the second
    /// `now`. This never fails.
    pub fn update_last_active_at(&mut self, session_id: String, now: i64) -> (done: Result<(), CoreError>)
        requires
            old(self).well_formed(),
        ensures
            done is Ok,
            final(self).well_formed(),
            final(self)@ == touch(old(self)@, session_id@, now as int),
    {
        self.change_where(false, session_id.as_str(), &Change::Touch { now });
        assert(change_all(old(self)@, false, session_id@, Change::Touch { now }) =~= touch(
            old(self)@,
            session_id@,
            now as int,
        ));
        Ok(())
    }

    /// Records that the session `session_id` was seen active at the clock's
    /// current second, whichever second that is. This never fails.
    pub fn update_last_active(&mut self, session_id: String) -> (done: Result<(), CoreError>)
        requires
            old(self).well_formed(),
        ensures
            done is Ok,
            final(self).well_formed(),
            exists|now: int|
                is_timestamp(now) && final(self)@ == #[trigger] touch(old(self)@, session_id@, now),
    {
        let now = unix_now();
        let done = self.update_last_active_at(session_id, now);
        assert(self@ == touch(old(self)@, session_id@, now as int));
        done
    }

    /// Gives the session `session_id` a new pair of token identifiers at the
    /// second `now`: from then on its former identifiers find nothing. This
    /// never fails.
    pub fn rotate_session_tokens(
        &mut self,
        session_id: String,
        access_jti: String,
        refresh_jti: String,
        now: i64,
    ) -> (done: Result<(), CoreError>)
        requires
            old(self).well_formed(),
        ensures
            done is Ok,
            final(self).well_formed(),
            final(self)@ == rotate(old(self)@, session_id@, access_jti@, refresh_jti@, now as int),
    {
        let change = Change::Rotate { access_jti, refresh_jti, now };
        self.change_where(false, session_id.as_str(), &change);
        assert(change_all(old(self)@, false, session_id@, change) =~= rotate(
            old(self)@,
            session_id@,
            access_jti@,
            refresh_jti@,
            now as int,
        ));
        Ok(())
    }

    /// The active sessions of `user_id`, in the order of their creation.
    /// This never fails.
    pub fn get_active_sessions_by_user(&self, user_id: String) -> (found: Result<Vec<TokenSession>, CoreError>)
        ensures
            found matches Ok(sessions) && views(sessions@) == active_of(self@, user_id@),
    {
        let mut found: Vec<TokenSession> = Vec::new();
        let mut i: usize = 0;
        assert(self@.subrange(0, 0) =~= Seq::<SessionView>::empty());
        assert(views(found@) =~= Seq::<SessionView>::empty());
        while i < self.sessions.len()
            invariant
                i <= self.sessions.len(),
                views(found@) == active_of(self@.subrange(0, i as int), user_id@),
            decreases self.sessions.len() - i,
        {
            let session = &self.sessions[i];
            let ghost seen = self@.subrange(0, i as int);
            let ghost next = self@.subrange(0, i + 1);
            proof {
                reveal_with_fuel(Seq::filter, 2);
                assert(next.drop_last() =~= seen);
                assert(next.last() == session@);
            }
            if session.is_active && str_eq(session.user_id.as_str(), user_id.as_str()) {
                let ghost prior = views(found@);
                found.push(session.clone());
                assert(views(found@) =~= prior.push(session@));
            }
            i += 1;
        }
        assert(self@.subrange(0, self@.len() as int) =~= self@);
        Ok(found)
    }

    /// Deletes every session created more than `retention_window` seconds
    /// before the second `now`, and says how many it deleted.
    pub fn sweep_expired(&mut self, now: i64, retention_window: i64) -> (deleted: usize)
        requires
            old(self).well_formed(),
        ensures
            final(self).well_formed(),
            final(self)@ == sweep(old(self)@, now - retention_window),
            deleted == old(self)@.len() - final(self)@.len(),
    {
        let ghost before = self@;
        let ghost cutoff: int = now - retention_window;
        let mut kept: Vec<TokenSession> = Vec::new();
        let ghost mut origin: Seq<int> = Seq::empty();
        let mut i: usize = 0;
        assert(before.subrange(0, 0) =~= Seq::<SessionView>::empty());
        assert(views(kept@) =~= Seq::<SessionView>::empty());
        while i < self.sessions.len()
            invariant
                i <= self.sessions.len(),
                self@ == before,
                cutoff == now - retention_window,
                views(kept@) == sweep(before.subrange(0, i as int), cutoff),
                kept@.len() <= i,
                origin.len() == kept@.len(),
                forall|k: int|
                    0 <= k < origin.len() ==> 0 <= #[trigger] origin[k] < i && views(kept@)[k]
                        == before[origin[k]],
                forall|a: int, b: int|
                    0 <= a < b < origin.len() ==> #[trigger] origin[a] < #[trigger] origin[b],
            decreases self.sessions.len() - i,
        {
            let session = &self.sessions[i];
            let ghost seen = before.subrange(0, i as int);
            let ghost next = before.subrange(0, i + 1);
            proof {
                reveal_with_fuel(Seq::filter, 2);
                assert(next.drop_last() =~= seen);
                assert(next.last() == session@);
            }
            let floor: i128 = now as i128 - retention_window as i128;
            if session.created_at as i128 >= floor {
                let ghost prior = views(kept@);
                kept.push(session.clone());
                proof {
                    assert(views(kept@) =~= prior.push(session@));
                    origin = origin.push(i as int);
                }
            }
            i += 1;
        }
        assert(before.subrange(0, before.len() as int) =~= before);
        let deleted = self.sessions.len() - kept.len();
        self.sessions = kept;
        proof {
            assert forall|a: int, b: int| 0 <= a < b < self@.len() implies (#[trigger] self@[a]).id
                != (#[trigger] self@[b]).id by {
                assert(origin[a] < origin[b]);
                assert(self@[a] == before[origin[a]]);
                assert(self@[b] == before[origin[b]]);
            }
        }
        deleted
    }

    /// Deletes every session created more than thirty days before the
    /// clock's current second, whichever second that is, and says how many
    /// it deleted. This never fails.
    pub fn cleanup_expired_sessions(&mut self) -> (deleted: Result<usize, CoreError>)
        requires
            old(self).well_formed(),
        ensures
            final(self).well_formed(),
            deleted matches Ok(n) && n == old(self)@.len() - final(self)@.len(),
            exists|now: int|
                is_timestamp(now) && final(self)@ == #[trigger] sweep(
                    old(self)@,
                    now - RETENTION_SECS,
                ),
    {
        let now = unix_now();
        let n = self.sweep_expired(now, RETENTION_SECS);
        assert(self@ == sweep(old(self)@, now as int - RETENTION_SECS));
        Ok(n)
    }
}

} // verus!
