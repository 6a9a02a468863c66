//! The store of accounts: found by id and by email address, with no two
//! accounts under one id or one address.

use crate::errors::db::DatabaseError;
use crate::errors::error::CoreError;
use crate::models::user::{User, UserView};
use crate::text::str_eq;
use vstd::prelude::*;

verus! {

/// No two accounts share an id, and no two share an email address.
pub open spec fn unique_users(users: Seq<UserView>) -> bool {
    forall|i: int, j: int|
        0 <= i < j < users.len() ==> (#[trigger] users[i]).id != (#[trigger] users[j]).id
            && users[i].email != users[j].email
}

/// Whether some account has the id.
pub open spec fn has_user_id(users: Seq<UserView>, id: Seq<char>) -> bool {
    exists|i: int| 0 <= i < users.len() && (#[trigger] users[i]).id == id
}

/// Whether some account has the email address.
pub open spec fn has_email(users: Seq<UserView>, email: Seq<char>) -> bool {
    exists|i: int| 0 <= i < users.len() && (#[trigger] users[i]).email == email
}

/// Whether some account other than `id` has the email address.
pub open spec fn email_taken_by_other(users: Seq<UserView>, id: Seq<char>, email: Seq<char>) -> bool {
    exists|i: int|
        0 <= i < users.len() && (#[trigger] users[i]).email == email && users[i].id != id
}

/// The id of an account or, with `by_email`, its email address.
pub open spec fn user_key(user: UserView, by_email: bool) -> Seq<char> {
    if by_email {
        user.email
    } else {
        user.id
    }
}

/// Whether the account at `i` is the first whose id or, with `by_email`,
/// whose email address is `value`.
pub open spec fn is_first_user(users: Seq<UserView>, i: int, by_email: bool, value: Seq<char>) -> bool {
    &&& 0 <= i < users.len()
    &&& user_key(users[i], by_email) == value
    &&& forall|k: int| 0 <= k < i ==> user_key(#[trigger] users[k], by_email) != value
}

/// The account with the id or, with `by_email`, with the email address, if
/// there is one; in a well-formed store there is at most one.
pub open spec fn find_user(users: Seq<UserView>, by_email: bool, value: Seq<char>) -> Option<
    UserView,
> {
    if exists|i: int| is_first_user(users, i, by_email, value) {
        Some(users[choose|i: int| is_first_user(users, i, by_email, value)])
    } else {
        None
    }
}

/// The account found is the account at any index that is a first match.
pub proof fn lemma_find_user_at(users: Seq<UserView>, i: int, by_email: bool, value: Seq<char>)
    requires
        is_first_user(users, i, by_email, value),
    ensures
        find_user(users, by_email, value) == Some(users[i]),
{
    let j = choose|j: int| is_first_user(users, j, by_email, value);
    if j < i {
        assert(user_key(users[j], by_email) == value);
    } else if i < j {
        assert(user_key(users[i], by_email) == value);
    }
}

/// An account is found exactly where one has the id or the email address,
/// and the account found has it.
pub proof fn lemma_find_user_finds_exactly(users: Seq<UserView>, by_email: bool, value: Seq<char>)
    ensures
        find_user(users, true, value) is Some <==> has_email(users, value),
        find_user(users, false, value) is Some <==> has_user_id(users, value),
        find_user(users, by_email, value) matches Some(found) ==> users.contains(found)
            && user_key(found, by_email) == value,
{
    if has_email(users, value) {
        let i = choose|i: int| 0 <= i < users.len() && (#[trigger] users[i]).email == value;
        lemma_first_user_exists(users, i, true, value);
    }
    if has_user_id(users, value) {
        let i = choose|i: int| 0 <= i < users.len() && (#[trigger] users[i]).id == value;
        lemma_first_user_exists(users, i, false, value);
    }
    if find_user(users, true, value) is Some {
        let j = choose|j: int| is_first_user(users, j, true, value);
        assert(users[j].email == value);
    }
    if find_user(users, false, value) is Some {
        let j = choose|j: int| is_first_user(users, j, false, value);
        assert(users[j].id == value);
    }
    if find_user(users, by_email, value) is Some {
        let j = choose|j: int| is_first_user(users, j, by_email, value);
        assert(user_key(users[j], by_email) == value);
    }
}

/// Below any match there is a first match.
pub proof fn lemma_first_user_exists(users: Seq<UserView>, i: int, by_email: bool, value: Seq<char>)
    requires
        0 <= i < users.len(),
        user_key(users[i], by_email) == value,
    ensures
        exists|j: int| 0 <= j <= i && is_first_user(users, j, by_email, value),
    decreases i,
{
    if forall|k: int| 0 <= k < i ==> user_key(#[trigger] users[k], by_email) != value {
        assert(is_first_user(users, i, by_email, value));
    } else {
        let k = choose|k: int| 0 <= k < i && user_key(#[trigger] users[k], by_email) == value;
        lemma_first_user_exists(users, k, by_email, value);
    }
}

/// In a store without two accounts under one id or one address, the
/// account at any index is the one that its id finds, and the one that its
/// address finds.
pub proof fn lemma_unique_account_is_found(users: Seq<UserView>, i: int)
    requires
        unique_users(users),
        0 <= i < users.len(),
    ensures
        find_user(users, false, users[i].id) == Some(users[i]),
        find_user(users, true, users[i].email) == Some(users[i]),
{
    assert forall|k: int| 0 <= k < i implies user_key(#[trigger] users[k], false) != users[i].id by {
        assert(users[k].id != users[i].id);
    }
    assert forall|k: int| 0 <= k < i implies user_key(#[trigger] users[k], true)
        != users[i].email by {
        assert(users[k].email != users[i].email);
    }
    lemma_find_user_at(users, i, false, users[i].id);
    lemma_find_user_at(users, i, true, users[i].email);
}

/// Whether `after` is `before` with the account `user_id` replaced by
/// `result` and every other account as it was.
pub open spec fn one_replaced(
    before: Seq<UserView>,
    after: Seq<UserView>,
    user_id: Seq<char>,
    result: UserView,
) -> bool {
    exists|i: int|
        0 <= i < before.len() && (#[trigger] before[i]).id == user_id && after == before.update(
            i,
            result,
        )
}

/// Whether `after` is `before` without the account `user_id`, every other
/// account as it was and in its place.
pub open spec fn one_removed(before: Seq<UserView>, after: Seq<UserView>, user_id: Seq<char>) -> bool {
    exists|i: int|
        0 <= i < before.len() && (#[trigger] before[i]).id == user_id && after == before.remove(i)
}

/// The views of a list of accounts, in order.
pub open spec fn user_views(users: Seq<User>) -> Seq<UserView> {
    users.map_values(|u: User| u@)
}

/// A change to an account.
pub enum UserChange {
    Verification { verified: bool },
    Password { hash: String },
    Profile { name: Option<String>, email: Option<String> },
}

/// The account after the change, made at the second `now`. A profile change
/// that gives an email address leaves the address unconfirmed.
pub open spec fn user_changed(user: UserView, change: UserChange, now: i64) -> UserView {
    match change {
        UserChange::Verification { verified } => UserView {
            verified,
            updated_at: Some(now),
            ..user
        },
        UserChange::Password { hash } => UserView {
            password: hash@,
            updated_at: Some(now),
            ..user
        },
        UserChange::Profile { name, email } => UserView {
            name: match name {
                Some(name) => name@,
                None => user.name,
            },
            email: match email {
                Some(email) => email@,
                None => user.email,
            },
            verified: if email is Some {
                false
            } else {
                user.verified
            },
            updated_at: Some(now),
            ..user
        },
    }
}

/// The email address that a change asks for, if it asks for one.
pub open spec fn wanted_email(change: UserChange) -> Option<Seq<char>> {
    match change {
        UserChange::Profile { email: Some(email), .. } => Some(email@),
        _ => None,
    }
}

/// The store of accounts. A well-formed store holds no two accounts with
/// the same id or the same email address; every operation keeps a
/// well-formed store well formed.
#[derive(Debug)]
pub struct UserRepository {
    users: Vec<User>,
}

impl View for UserRepository {
    type V = Seq<UserView>;

    closed spec fn view(&self) -> Seq<UserView> {
        user_views(self.users@)
    }
}

impl UserRepository {
    /// No two accounts share an id or an email address.
    pub open spec fn well_formed(&self) -> bool {
        unique_users(self@)
    }

    /// An empty store.
    pub fn new() -> (repo: Self)
        ensures
            repo@ == Seq::<UserView>::empty(),
            repo.well_formed(),
    {
        let repo = UserRepository { users: Vec::new() };
        assert(user_views(repo.users@) =~= Seq::<UserView>::empty());
        repo
    }

    /// The index of the account with the id or, with `by_email`, with the
    /// email address.
    fn position(&self, by_email: bool, value: &str) -> (found: Option<usize>)
        ensures
            match found {
                Some(i) => is_first_user(self@, i as int, by_email, value@),
                None => find_user(self@, by_email, value@) is None && if by_email {
                    !has_email(self@, value@)
                } else {
                    !has_user_id(self@, value@)
                },
            },
    {
        let mut i: usize = 0;
        while i < self.users.len()
            invariant
                i <= self.users.len(),
                forall|k: int| 0 <= k < i ==> user_key(#[trigger] self@[k], by_email) != value@,
            decreases self.users.len() - i,
        {
            let user = &self.users[i];
            let hit = if by_email {
                str_eq(user.email.as_str(), value)
            } else {
                str_eq(user.id.as_str(), value)
            };
            if hit {
                assert(self@[i as int] == user@);
                return Some(i);
            }
            i += 1;
        }
        proof {
            lemma_find_user_finds_exactly(self@, by_email, value@);
            assert(!has_email(self@, value@) || !by_email) by {
                if by_email && has_email(self@, value@) {
                    let k = choose|k: int| 0 <= k < self@.len() && (#[trigger] self@[k]).email == value@;
                    assert(user_key(self@[k], by_email) == value@);
                }
            }
            assert(!has_user_id(self@, value@) || by_email) by {
                if !by_email && has_user_id(self@, value@) {
                    let k = choose|k: int| 0 <= k < self@.len() && (#[trigger] self@[k]).id == value@;
                    assert(user_key(self@[k], by_email) == value@);
                }
            }
        }
        None
    }

    /// Stores a new account and returns it. An account whose id or email
    /// address the store already holds is refused as a conflict, and the
    /// store stays as it was.
    pub fn create(&mut self, user: User) -> (created: Result<User, CoreError>)
        requires
            old(self).well_formed(),
        ensures
            final(self).well_formed(),
            match created {
                Ok(stored) => {
                    &&& !has_user_id(old(self)@, user@.id)
                    &&& !has_email(old(self)@, user@.email)
                    &&& final(self)@ == old(self)@.push(user@)
                    &&& stored@ == user@
                },
                Err(e) => {
                    &&& has_user_id(old(self)@, user@.id) || has_email(old(self)@, user@.email)
                    &&& final(self)@ == old(self)@
                    &&& e matches CoreError::Db(DatabaseError::ConstraintViolation(_))
                },
            },
    {
        if self.position(false, user.id.as_str()).is_some() || self.position(
            true,
            user.email.as_str(),
        ).is_some() {
            return Err(
                CoreError::Db(DatabaseError::ConstraintViolation("User already exists".to_owned())),
            );
        }
        let stored = user.clone();
        let ghost before = self@;
        self.users.push(user);
        proof {
            assert(self@ =~= before.push(user@));
            assert forall|i: int, j: int| 0 <= i < j < self@.len() implies (#[trigger] self@[i]).id
                != (#[trigger] self@[j]).id && self@[i].email != self@[j].email by {
                if j == before.len() {
                    assert(before[i].id != user@.id);
                    assert(before[i].email != user@.email);
                }
            }
        }
        Ok(stored)
    }

    /// The account with the email address, if any. This never fails.
    pub fn find_by_email(&self, email: String) -> (found: Result<Option<User>, CoreError>)
        ensures
            found matches Ok(user) && match user {
                Some(user) => find_user(self@, true, email@) == Some(user@) && self@.contains(user@)
                    && user@.email == email@,
                None => find_user(self@, true, email@) is None && !has_email(self@, email@),
            },
    {
        match self.position(true, email.as_str()) {
            Some(i) => {
                let user = self.users[i].clone();
                proof {
                    assert(self@[i as int] == user@);
                    lemma_find_user_at(self@, i as int, true, email@);
                }
                Ok(Some(user))
            },
            None => Ok(None),
        }
    }

    /// The account with the id, if any. This never fails.
    pub fn find_by_id(&self, user_id: String) -> (found: Result<Option<User>, CoreError>)
        ensures
            found matches Ok(user) && match user {
                Some(user) => find_user(self@, false, user_id@) == Some(user@) && self@.contains(
                    user@,
                ) && user@.id == user_id@,
                None => find_user(self@, false, user_id@) is None && !has_user_id(self@, user_id@),
            },
    {
        match self.position(false, user_id.as_str()) {
            Some(i) => {
                let user = self.users[i].clone();
                proof {
                    assert(self@[i as int] == user@);
                    lemma_find_user_at(self@, i as int, false, user_id@);
                }
                Ok(Some(user))
            },
            None => Ok(None),
        }
    }

    /// Whether some account has the email address. This never fails.
    pub fn email_exists(&self, email: String) -> (exists: Result<bool, CoreError>)
        ensures
            exists matches Ok(yes) && yes == has_email(self@, email@),
    {
        Ok(self.position(true, email.as_str()).is_some())
    }

    /// Makes the change to the account `user_id` at the second `now` and
    /// returns the account as it is then. An account that does not exist is
    /// reported as not found, and an email address that another account
    /// holds as a conflict; either way the store stays as it was.
    fn change(&mut self, user_id: &str, change: UserChange, now: i64, missing: &str) -> (changed:
        Result<User, CoreError>)
        requires
            old(self).well_formed(),
        ensures
            final(self).well_formed(),
            match changed {
                Ok(user) => exists|i: int|
                    {
                        &&& 0 <= i < old(self)@.len()
                        &&& (#[trigger] old(self)@[i]).id == user_id@
                        &&& user@ == user_changed(old(self)@[i], change, now)
                        &&& final(self)@ == old(self)@.update(i, user@)
                    },
                Err(CoreError::Db(DatabaseError::NotFound(m))) => {
                    &&& !has_user_id(old(self)@, user_id@)
                    &&& final(self)@ == old(self)@
                    &&& m@ == missing@
                },
                Err(CoreError::Db(DatabaseError::ConstraintViolation(_))) => {
                    &&& has_user_id(old(self)@, user_id@)
                    &&& wanted_email(change) matches Some(email) && email_taken_by_other(
                        old(self)@,
                        user_id@,
                        email,
                    )
                    &&& final(self)@ == old(self)@
                },
                Err(_) => false,
            },
    {
        let i = match self.position(false, user_id) {
            Some(i) => i,
            None => {
                return Err(CoreError::Db(DatabaseError::NotFound(missing.to_owned())));
            },
        };
        let ghost before = self@;
        let mut user = self.users[i].clone();
        assert(user@ == before[i as int]);
        match change {
            UserChange::Verification { verified } => {
                user.verified = verified;
            },
            UserChange::Password { hash } => {
                user.password = hash;
            },
            UserChange::Profile { name, email } => {
                if let Some(name) = name {
                    user.name = name;
                }
                if let Some(email) = email {
                    if let Some(j) = self.position(true, email.as_str()) {
                        if j != i {
                            assert(before[j as int].email == email@ && before[j as int].id
                                != user_id@);
                            return Err(
                                CoreError::Db(
                                    DatabaseError::ConstraintViolation(
                                        "Email address is already in use".to_owned(),
                                    ),
                                ),
                            );
                        }
                    }
                    user.email = email;
                    user.verified = false;
                }
            },
        }
        user.updated_at = Some(now);
        let stored = user.clone();
        self.users.set(i, user);
        proof {
            assert(self@ =~= before.update(i as int, stored@));
            assert forall|a: int, b: int| 0 <= a < b < self@.len() implies (#[trigger] self@[a]).id
                != (#[trigger] self@[b]).id && self@[a].email != self@[b].email by {
                assert(before[a].id != before[b].id && before[a].email != before[b].email);
                if a == i && self@[a].email != before[a].email {
                    assert(!(before[b].email == self@[a].email && before[b].id != user_id@)) by {
                        if before[b].email == self@[a].email {
                            assert(has_email(before, self@[a].email));
                        }
                    }
                }
                if b == i && self@[b].email != before[b].email {
                    if before[a].email == self@[b].email {
                        assert(has_email(before, self@[b].email));
                    }
                }
            }
        }
        Ok(stored)
    }

    /// Records whether the email address of the account `user_id` is
    /// confirmed, at the second `now`.
    pub fn update_verification_status(&mut self, user_id: String, verified: bool, now: i64) -> (changed:
        Result<User, CoreError>)
        requires
            old(self).well_formed(),
        ensures
            final(self).well_formed(),
            match changed {
                Ok(user) => exists|i: int|
                    {
                        &&& 0 <= i < old(self)@.len()
                        &&& (#[trigger] old(self)@[i]).id == user_id@
                        &&& user@ == (UserView {
                            verified,
                            updated_at: Some(now),
                            ..old(self)@[i]
                        })
                        &&& final(self)@ == old(self)@.update(i, user@)
                    },
                Err(e) => {
                    &&& !has_user_id(old(self)@, user_id@)
                    &&& final(self)@ == old(self)@
                    &&& e matches CoreError::Db(DatabaseError::NotFound(_))
                },
            },
    {
        self.change(
            user_id.as_str(),
            UserChange::Verification { verified },
            now,
            "User not found for verification update",
        )
    }

    /// Replaces the password hash of the account `user_id`, at the second
    /// `now`.
    pub fn update_password(&mut self, user_id: String, new_password_hash: String, now: i64) -> (changed:
        Result<User, CoreError>)
        requires
            old(self).well_formed(),
        ensures
            final(self).well_formed(),
            match changed {
                Ok(user) => exists|i: int|
                    {
                        &&& 0 <= i < old(self)@.len()
                        &&& (#[trigger] old(self)@[i]).id == user_id@
                        &&& user@ == (UserView {
                            password: new_password_hash@,
                            updated_at: Some(now),
                            ..old(self)@[i]
                        })
                        &&& final(self)@ == old(self)@.update(i, user@)
                    },
                Err(e) => {
                    &&& !has_user_id(old(self)@, user_id@)
                    &&& final(self)@ == old(self)@
                    &&& e matches CoreError::Db(DatabaseError::NotFound(_))
                },
            },
    {
        self.change(
            user_id.as_str(),
            UserChange::Password { hash: new_password_hash },
            now,
            "User not found for password update",
        )
    }

    /// Changes the name, the email address or both of the account `user_id`,
    /// at the second `now`. A new email address is unconfirmed. An address
    /// that another account holds is refused as a conflict.
    pub fn update_profile(
        &mut self,
        user_id: String,
        name: Option<String>,
        email: Option<String>,
        now: i64,
    ) -> (changed: Result<User, CoreError>)
        requires
            old(self).well_formed(),
        ensures
            final(self).well_formed(),
            match changed {
                Ok(user) => exists|i: int|
                    {
                        &&& 0 <= i < old(self)@.len()
                        &&& (#[trigger] old(self)@[i]).id == user_id@
                        &&& user@ == user_changed(
                            old(self)@[i],
                            UserChange::Profile { name, email },
                            now,
                        )
                        &&& final(self)@ == old(self)@.update(i, user@)
                    },
                Err(CoreError::Db(DatabaseError::NotFound(_))) => {
                    &&& !has_user_id(old(self)@, user_id@)
                    &&& final(self)@ == old(self)@
                },
                Err(CoreError::Db(DatabaseError::ConstraintViolation(_))) => {
                    &&& has_user_id(old(self)@, user_id@)
                    &&& email matches Some(email) && email_taken_by_other(
                        old(self)@,
                        user_id@,
                        email@,
                    )
                    &&& final(self)@ == old(self)@
                },
                Err(_) => false,
            },
    {
        self.change(
            user_id.as_str(),
            UserChange::Profile { name, email },
            now,
            "User not found for profile update",
        )
    }

    /// Deletes the account `user_id`, if there is one, and leaves every
    /// other account as it was. This never fails.
    pub fn delete(&mut self, user_id: String) -> (done: Result<(), CoreError>)
        requires
            old(self).well_formed(),
        ensures
            done is Ok,
            final(self).well_formed(),
            !has_user_id(final(self)@, user_id@),
            forall|u: UserView|
                u.id != user_id@ ==> (final(self)@.contains(u) <==> old(self)@.contains(u)),
            if has_user_id(old(self)@, user_id@) {
                one_removed(old(self)@, final(self)@, user_id@)
            } else {
                final(self)@ == old(self)@
            },
    {
        let ghost before = self@;
        match self.position(false, user_id.as_str()) {
            Some(i) => {
                self.users.remove(i);
                proof {
                    assert(self@ =~= before.remove(i as int));
                    assert forall|k: int| 0 <= k < self@.len() implies (#[trigger] self@[k]).id
                        != user_id@ by {
                        if k < i {
                            assert(self@[k] == before[k]);
                        } else {
                            assert(self@[k] == before[k + 1]);
                        }
                    }
                    assert forall|a: int, b: int| 0 <= a < b < self@.len() implies (
                    #[trigger] self@[a]).id != (#[trigger] self@[b]).id && self@[a].email
                        != self@[b].email by {
                        let a0 = if a < i {
                            a
                        } else {
                            a + 1
                        };
                        let b0 = if b < i {
                            b
                        } else {
                            b + 1
                        };
                        assert(self@[a] == before[a0] && self@[b] == before[b0]);
                    }
                    assert forall|u: UserView| u.id != user_id@ implies (self@.contains(u)
                        <==> before.contains(u)) by {
                        if self@.contains(u) {
                            let k = choose|k: int| 0 <= k < self@.len() && self@[k] == u;
                            let k0 = if k < i {
                                k
                            } else {
                                k + 1
                            };
                            assert(before[k0] == u);
                        }
                        if before.contains(u) {
                            let k = choose|k: int| 0 <= k < before.len() && before[k] == u;
                            let k1 = if k < i {
                                k
                            } else {
                                k - 1
                            };
                            assert(self@[k1] == u);
                        }
                    }
                }
                Ok(())
            },
            None => Ok(()),
        }
    }
}

} // verus!
