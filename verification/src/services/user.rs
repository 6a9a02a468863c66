//! Accounts: what a name, an email address and a password must look like,
//! and how accounts are made, found and changed.

use crate::clock::{is_timestamp, unix_now};
use crate::database::user::{
    find_user, has_email, has_user_id, lemma_find_user_finds_exactly,
    lemma_unique_account_is_found, one_removed, one_replaced, user_changed, UserChange,
    UserRepository,
};
use crate::email::{check_email, is_email};
use crate::errors::auth::AuthError;
use crate::errors::db::DatabaseError;
use crate::errors::error::CoreError;
use crate::ids::{fresh_id, ID_LEN};
use crate::models::role::Role;
use crate::models::token_claims::opt_text;
use crate::models::user::{User, UserView};
use crate::text::{blank, is_blank, str_eq};
use vstd::prelude::*;
use vstd::string::*;
use vstd::utf8::*;

verus! {

/// The longest name, in bytes.
pub const MAX_NAME_LEN: usize = 100;

/// The shortest password, in bytes.
pub const MIN_PASSWORD_LEN: usize = 8;

/// The longest password, in bytes.
pub const MAX_PASSWORD_LEN: usize = 128;

/// What `bcrypt::verify` says of a password and a hash: whether the hash is
/// the password's, or `None` for a text that is no bcrypt hash.
pub uninterp spec fn bcrypt_verified(password: Seq<char>, hash: Seq<char>) -> Option<bool>;

/// `bcrypt::hash` at the default cost: a hash of the password under a random
/// salt, or `None` where the library fails. Which hash it is, is not known
/// beforehand; whichever it is, `bcrypt::verify` accepts it for the same
/// password, since it hashes again under the salt and cost that the hash
/// names.
#[verifier::external_body]
fn bcrypt_hash(password: &str) -> (hash: Option<String>)
    ensures
        hash matches Some(h) ==> bcrypt_verified(password@, h@) == Some(true),
{
    bcrypt::hash(password, bcrypt::DEFAULT_COST).ok()
}

/// `bcrypt::verify`: whether the hash is the password's, or `None` for a
/// text that is no bcrypt hash.
#[verifier::external_body]
fn bcrypt_verify(password: &str, hash: &str) -> (verdict: Option<bool>)
    ensures
        verdict == bcrypt_verified(password@, hash@),
{
    bcrypt::verify(password, hash).ok()
}

/// A name may not be blank nor longer than a hundred bytes.
pub open spec fn name_ok(name: Seq<char>) -> bool {
    !is_blank(name) && encode_utf8(name).len() <= MAX_NAME_LEN
}

/// What is wrong with a password, if anything: it may not be empty, nor
/// shorter than eight bytes, nor longer than 128.
pub open spec fn password_fault(password: Seq<char>) -> Option<AuthError> {
    let len = encode_utf8(password).len();
    if password.len() == 0 {
        Some(AuthError::EmptyPassword)
    } else if len < MIN_PASSWORD_LEN {
        Some(AuthError::InvalidCredentials)
    } else if len > MAX_PASSWORD_LEN {
        Some(AuthError::PasswordTooLong { max_length: MAX_PASSWORD_LEN })
    } else {
        None
    }
}

/// What is wrong with the input of a registration, if anything: the first
/// fault of the name, the email address and the password, in this order.
pub open spec fn input_fault(name: Seq<char>, email: Seq<char>, password: Seq<char>) -> Option<
    AuthError,
> {
    if !name_ok(name) {
        Some(AuthError::InvalidCredentials)
    } else if !is_email(email) {
        Some(AuthError::InvalidCredentials)
    } else {
        password_fault(password)
    }
}

/// The result of a check that found `fault`.
pub open spec fn checked(fault: Option<AuthError>) -> Result<(), CoreError> {
    match fault {
        Some(e) => Err(CoreError::Auth(e)),
        None => Ok(()),
    }
}

/// What a login with an email address and a password comes to: the account
/// with the address, if the password is its password. An unknown address
/// and a wrong password are refused alike, as invalid credentials; a stored
/// text that is no hash is an error.
pub open spec fn login_outcome(users: Seq<UserView>, email: Seq<char>, password: Seq<char>) -> Result<
    UserView,
    CoreError,
> {
    match find_user(users, true, email) {
        Some(user) => match bcrypt_verified(password, user.password) {
            Some(true) => Ok(user),
            Some(false) => Err(CoreError::Auth(AuthError::InvalidCredentials)),
            None => Err(CoreError::Auth(AuthError::InvalidHashFormat)),
        },
        None => Err(CoreError::Auth(AuthError::InvalidCredentials)),
    }
}

/// What stands against a user who wants to change the password and gives
/// `current` as the current one: the account must exist and the password
/// must be its password.
pub open spec fn owner_fault(users: Seq<UserView>, user_id: Seq<char>, current: Seq<char>) -> Option<
    AuthError,
> {
    match find_user(users, false, user_id) {
        Some(user) => match bcrypt_verified(current, user.password) {
            Some(true) => None,
            Some(false) => Some(AuthError::InvalidCredentials),
            None => Some(AuthError::InvalidHashFormat),
        },
        None => Some(AuthError::UserNoLongerExists),
    }
}

/// What stands against a change of a profile: for a new email address the
/// account must exist and the address, unless it is the account's own, must
/// be free and have the form of an address; a new name must be a name.
pub open spec fn profile_fault(
    users: Seq<UserView>,
    user_id: Seq<char>,
    name: Option<Seq<char>>,
    email: Option<Seq<char>>,
) -> Option<AuthError> {
    let email_fault = match email {
        Some(email) => match find_user(users, false, user_id) {
            Some(user) => if email == user.email {
                None
            } else if has_email(users, email) {
                Some(AuthError::EmailAlreadyExists)
            } else if !is_email(email) {
                Some(AuthError::InvalidCredentials)
            } else {
                None
            },
            None => Some(AuthError::UserNoLongerExists),
        },
        None => None,
    };
    if email_fault is Some {
        email_fault
    } else {
        match name {
            Some(name) => if name_ok(name) {
                None
            } else {
                Some(AuthError::InvalidCredentials)
            },
            None => None,
        }
    }
}

/// The email address of the account `user_id` was confirmed: `user` is the
/// account as it was, confirmed and with the second of the change, and has
/// taken its place; every other account is as it was.
pub open spec fn email_confirmed(
    before: Seq<UserView>,
    after: Seq<UserView>,
    user_id: Seq<char>,
    user: UserView,
) -> bool {
    &&& find_user(before, false, user_id) matches Some(was) && user == (UserView {
        verified: true,
        updated_at: user.updated_at,
        ..was
    })
    &&& user.updated_at matches Some(at) && is_timestamp(at as int)
    &&& one_replaced(before, after, user_id, user)
}

/// The password of the account `user_id` was replaced: `user` is the
/// account as it was, with a hash of `password` and the second of the
/// change, and has taken its place; every other account is as it was.
pub open spec fn password_replaced(
    before: Seq<UserView>,
    after: Seq<UserView>,
    user_id: Seq<char>,
    password: Seq<char>,
    user: UserView,
) -> bool {
    &&& find_user(before, false, user_id) matches Some(was) && user == (UserView {
        password: user.password,
        updated_at: user.updated_at,
        ..was
    })
    &&& bcrypt_verified(password, user.password) == Some(true)
    &&& user.updated_at matches Some(at) && is_timestamp(at as int)
    &&& one_replaced(before, after, user_id, user)
}

/// The profile of the account `user_id` was changed: `user` is the account
/// as it was, with the new name, the new address or both and the second of
/// the change, and has taken its place; every other account is as it was.
pub open spec fn profile_changed(
    before: Seq<UserView>,
    after: Seq<UserView>,
    user_id: Seq<char>,
    name: Option<String>,
    email: Option<String>,
    user: UserView,
) -> bool {
    &&& find_user(before, false, user_id) matches Some(was) && (user.updated_at matches Some(at)
        && is_timestamp(at as int) && user == user_changed(
        was,
        UserChange::Profile { name, email },
        at,
    ))
    &&& one_replaced(before, after, user_id, user)
}

/// Whether the id of a new account can be taken already: only where the
/// store holds an account whose id has the length of a fresh one. The id is
/// drawn at random, so whether it is taken is not known beforehand.
pub open spec fn fresh_id_may_be_taken(users: Seq<UserView>) -> bool {
    exists|i: int| 0 <= i < users.len() && (#[trigger] users[i]).id.len() == ID_LEN
}

/// The service of accounts, with its store.
#[derive(Debug)]
pub struct UserService {
    pub user_repo: UserRepository,
}

impl UserService {
    /// The store is well formed.
    pub open spec fn well_formed(&self) -> bool {
        self.user_repo.well_formed()
    }

    /// A service without accounts.
    pub fn new() -> (service: Self)
        ensures
            service.user_repo@ == Seq::<UserView>::empty(),
            service.well_formed(),
    {
        UserService { user_repo: UserRepository::new() }
    }

    /// The hash under which a password is stored. Whatever hash it is, it
    /// verifies against the password.
    pub fn hash_password(&self, password: &str) -> (hashed: Result<String, CoreError>)
        ensures
            match hashed {
                Ok(hash) => bcrypt_verified(password@, hash@) == Some(true),
                Err(e) => e == CoreError::Auth(AuthError::HashingError),
            },
    {
        match bcrypt_hash(password) {
            Some(hash) => Ok(hash),
            None => Err(CoreError::Auth(AuthError::HashingError)),
        }
    }

    /// Whether the stored hash is the password's. A stored text that is no
    /// hash is an error.
    pub fn verify_password(&self, password: &str, hash: &str) -> (verdict: Result<bool, CoreError>)
        ensures
            match verdict {
                Ok(yes) => bcrypt_verified(password@, hash@) == Some(yes),
                Err(e) => bcrypt_verified(password@, hash@) is None && e == CoreError::Auth(
                    AuthError::InvalidHashFormat,
                ),
            },
    {
        match bcrypt_verify(password, hash) {
            Some(yes) => Ok(yes),
            None => Err(CoreError::Auth(AuthError::InvalidHashFormat)),
        }
    }

    /// Checks a name: it may not be blank nor longer than a hundred bytes.
    pub fn validate_name(&self, name: &str) -> (ok: Result<(), CoreError>)
        ensures
            ok == checked(
                if name_ok(name@) {
                    None
                } else {
                    Some(AuthError::InvalidCredentials)
                },
            ),
    {
        if name.as_bytes().len() > MAX_NAME_LEN {
            return Err(CoreError::Auth(AuthError::InvalidCredentials));
        }
        if blank(name) {
            return Err(CoreError::Auth(AuthError::InvalidCredentials));
        }
        Ok(())
    }

    /// Checks an email address: it must have the form of one.
    pub fn validate_email(&self, email: &str) -> (ok: Result<(), CoreError>)
        ensures
            ok == checked(
                if is_email(email@) {
                    None
                } else {
                    Some(AuthError::InvalidCredentials)
                },
            ),
    {
        if !check_email(email) {
            return Err(CoreError::Auth(AuthError::InvalidCredentials));
        }
        Ok(())
    }

    /// Checks a password: it may not be empty, nor shorter than eight bytes,
    /// nor longer than 128.
    pub fn validate_password(&self, password: &str) -> (ok: Result<(), CoreError>)
        ensures
            ok == checked(password_fault(password@)),
    {
        if password.is_empty() {
            return Err(CoreError::Auth(AuthError::EmptyPassword));
        }
        let len = password.as_bytes().len();
        if len < MIN_PASSWORD_LEN {
            return Err(CoreError::Auth(AuthError::InvalidCredentials));
        }
        if len > MAX_PASSWORD_LEN {
            return Err(CoreError::Auth(AuthError::password_too_long(MAX_PASSWORD_LEN)));
        }
        Ok(())
    }

    /// Checks the input of a registration: the name, then the email address,
    /// then the password; the first fault is reported.
    pub fn validate_user_input(&self, name: &str, email: &str, password: &str) -> (ok: Result<
        (),
        CoreError,
    >)
        ensures
            ok == checked(input_fault(name@, email@, password@)),
    {
        match self.validate_name(name) {
            Ok(()) => {},
            Err(e) => {
                return Err(e);
            },
        }
        match self.validate_email(email) {
            Ok(()) => {},
            Err(e) => {
                return Err(e);
            },
        }
        self.validate_password(password)
    }

    /// Whether an email address is free for a new account.
    pub fn ensure_email_free(exists: bool) -> (ok: Result<(), CoreError>)
        ensures
            ok == checked(
                if exists {
                    Some(AuthError::EmailAlreadyExists)
                } else {
                    None
                },
            ),
    {
        if exists {
            Err(CoreError::Auth(AuthError::EmailAlreadyExists))
        } else {
            Ok(())
        }
    }

    /// The verdict on a login, from what the check of the password said:
    /// only a password that is the account's logs in.
    pub fn ensure_password_matches(matches: bool) -> (ok: Result<(), CoreError>)
        ensures
            ok == checked(
                if matches {
                    None
                } else {
                    Some(AuthError::InvalidCredentials)
                },
            ),
    {
        if matches {
            Ok(())
        } else {
            Err(CoreError::Auth(AuthError::InvalidCredentials))
        }
    }

    /// Registers an account: an ordinary user under a fresh id whose email
    /// address is not yet confirmed. Input with a fault is refused with that
    /// fault, and an email address that is taken as already existing; on any
    /// refusal the store stays as it was. Beyond that a registration fails
    /// only where the password cannot be hashed or the fresh id is already
    /// taken.
    pub fn create_user(&mut self, name: String, email: String, password: String) -> (created: Result<
        User,
        CoreError,
    >)
        requires
            old(self).well_formed(),
        ensures
            final(self).well_formed(),
            match created {
                Ok(user) => {
                    &&& input_fault(name@, email@, password@) is None
                    &&& !has_email(old(self).user_repo@, email@)
                    &&& final(self).user_repo@ == old(self).user_repo@.push(user@)
                    &&& user@.id.len() == ID_LEN
                    &&& user@.name == name@
                    &&& user@.email == email@
                    &&& bcrypt_verified(password@, user@.password) == Some(true)
                    &&& user@.role == Role::User
                    &&& !user@.verified
                    &&& user@.created_at == user@.updated_at
                    &&& user@.created_at matches Some(now) && is_timestamp(now as int)
                },
                Err(e) => {
                    &&& final(self).user_repo@ == old(self).user_repo@
                    &&& match input_fault(name@, email@, password@) {
                        Some(fault) => e == CoreError::Auth(fault),
                        None => if has_email(old(self).user_repo@, email@) {
                            e == CoreError::Auth(AuthError::EmailAlreadyExists)
                        } else {
                            ||| e == CoreError::Auth(AuthError::HashingError)
                            ||| fresh_id_may_be_taken(old(self).user_repo@)
                                && e matches CoreError::Db(DatabaseError::ConstraintViolation(_))
                        },
                    }
                },
            },
    {
        match self.validate_user_input(name.as_str(), email.as_str(), password.as_str()) {
            Ok(()) => {},
            Err(e) => {
                return Err(e);
            },
        }
        let exists = match self.user_repo.email_exists(email.clone()) {
            Ok(exists) => exists,
            Err(e) => {
                return Err(e);
            },
        };
        match Self::ensure_email_free(exists) {
            Ok(()) => {},
            Err(e) => {
                return Err(e);
            },
        }
        let password_hash = match self.hash_password(password.as_str()) {
            Ok(hash) => hash,
            Err(e) => {
                return Err(e);
            },
        };
        let user = User::new(fresh_id(), name, email, password_hash);
        let ghost before = self.user_repo@;
        let ghost id = user@.id;
        let created = self.user_repo.create(user);
        proof {
            if created is Err {
                let i = choose|i: int| 0 <= i < before.len() && (#[trigger] before[i]).id == id;
                assert(before[i].id.len() == ID_LEN);
            }
        }
        created
    }

    /// Logs a user in: the account with the email address, if the password
    /// is its password. An unknown address and a wrong password are refused
    /// alike, as invalid credentials.
    pub fn authenticate_user(&self, email: String, password: String) -> (logged_in: Result<
        User,
        CoreError,
    >)
        ensures
            match logged_in {
                Ok(user) => login_outcome(self.user_repo@, email@, password@) == Ok::<
                    UserView,
                    CoreError,
                >(user@),
                Err(e) => login_outcome(self.user_repo@, email@, password@) == Err::<
                    UserView,
                    CoreError,
                >(e),
            },
    {
        let user = match self.user_repo.find_by_email(email) {
            Ok(Some(user)) => user,
            Ok(None) => {
                return Err(CoreError::Auth(AuthError::InvalidCredentials));
            },
            Err(e) => {
                return Err(e);
            },
        };
        let matches = match self.verify_password(password.as_str(), user.password.as_str()) {
            Ok(matches) => matches,
            Err(e) => {
                return Err(e);
            },
        };
        match Self::ensure_password_matches(matches) {
            Ok(()) => Ok(user),
            Err(e) => Err(e),
        }
    }

    /// The account with the email address, if any. This never fails.
    pub fn find_by_email(&self, email: String) -> (found: Result<Option<User>, CoreError>)
        ensures
            found matches Ok(user) && match user {
                Some(user) => find_user(self.user_repo@, true, email@) == Some(user@)
                    && self.user_repo@.contains(user@) && user@.email == email@,
                None => find_user(self.user_repo@, true, email@) is None && !has_email(
                    self.user_repo@,
                    email@,
                ),
            },
    {
        self.user_repo.find_by_email(email)
    }

    /// The account with the id, if any. This never fails.
    pub fn find_by_id(&self, user_id: String) -> (found: Result<Option<User>, CoreError>)
        ensures
            found matches Ok(user) && match user {
                Some(user) => find_user(self.user_repo@, false, user_id@) == Some(user@)
                    && self.user_repo@.contains(user@) && user@.id == user_id@,
                None => find_user(self.user_repo@, false, user_id@) is None && !has_user_id(
                    self.user_repo@,
                    user_id@,
                ),
            },
    {
        self.user_repo.find_by_id(user_id)
    }

    /// Records that the email address of the account is confirmed.
    pub fn verify_email(&mut self, user_id: String) -> (changed: Result<User, CoreError>)
        requires
            old(self).well_formed(),
        ensures
            final(self).well_formed(),
            match changed {
                Ok(user) => {
                    &&& has_user_id(old(self).user_repo@, user_id@)
                    &&& user@.id == user_id@
                    &&& email_confirmed(
                        old(self).user_repo@,
                        final(self).user_repo@,
                        user_id@,
                        user@,
                    )
                },
                Err(e) => {
                    &&& !has_user_id(old(self).user_repo@, user_id@)
                    &&& final(self).user_repo@ == old(self).user_repo@
                    &&& e matches CoreError::Db(DatabaseError::NotFound(_))
                },
            },
    {
        let ghost users = self.user_repo@;
        let now = unix_now();
        let changed = self.user_repo.update_verification_status(user_id, true, now);
        proof {
            if changed is Ok {
                let user = changed->Ok_0@;
                let i = choose|i: int|
                    0 <= i < users.len() && (#[trigger] users[i]).id == user_id@ && user == (
                    UserView { verified: true, updated_at: Some(now), ..users[i] })
                        && self.user_repo@ == users.update(i, user);
                lemma_unique_account_is_found(users, i);
            }
        }
        changed
    }

    /// Sets a new password for the account, without asking for the old one.
    /// A new password with a fault is refused with that fault.
    pub fn reset_password(&mut self, user_id: String, new_password: String) -> (changed: Result<
        User,
        CoreError,
    >)
        requires
            old(self).well_formed(),
        ensures
            final(self).well_formed(),
            match changed {
                Ok(user) => {
                    &&& password_fault(new_password@) is None
                    &&& has_user_id(old(self).user_repo@, user_id@)
                    &&& user@.id == user_id@
                    &&& password_replaced(
                        old(self).user_repo@,
                        final(self).user_repo@,
                        user_id@,
                        new_password@,
                        user@,
                    )
                },
                Err(e) => {
                    &&& final(self).user_repo@ == old(self).user_repo@
                    &&& match password_fault(new_password@) {
                        Some(fault) => e == CoreError::Auth(fault),
                        None => {
                            ||| e == CoreError::Auth(AuthError::HashingError)
                            ||| !has_user_id(old(self).user_repo@, user_id@)
                                && e matches CoreError::Db(DatabaseError::NotFound(_))
                        },
                    }
                },
            },
    {
        match self.validate_password(new_password.as_str()) {
            Ok(()) => {},
            Err(e) => {
                return Err(e);
            },
        }
        let hash = match self.hash_password(new_password.as_str()) {
            Ok(hash) => hash,
            Err(e) => {
                return Err(e);
            },
        };
        let ghost users = self.user_repo@;
        let ghost stored = hash@;
        let now = unix_now();
        let changed = self.user_repo.update_password(user_id, hash, now);
        proof {
            if changed is Ok {
                let user = changed->Ok_0@;
                let i = choose|i: int|
                    0 <= i < users.len() && (#[trigger] users[i]).id == user_id@ && user == (
                    UserView { password: stored, updated_at: Some(now), ..users[i] })
                        && self.user_repo@ == users.update(i, user);
                lemma_unique_account_is_found(users, i);
            }
        }
        changed
    }

    /// Changes the password of the account: the current password must be
    /// the account's and the new one without fault. On any refusal the store
    /// stays as it was.
    pub fn change_password(
        &mut self,
        user_id: String,
        current_password: String,
        new_password: String,
    ) -> (changed: Result<User, CoreError>)
        requires
            old(self).well_formed(),
        ensures
            final(self).well_formed(),
            match changed {
                Ok(user) => {
                    &&& owner_fault(old(self).user_repo@, user_id@, current_password@) is None
                    &&& password_fault(new_password@) is None
                    &&& user@.id == user_id@
                    &&& password_replaced(
                        old(self).user_repo@,
                        final(self).user_repo@,
                        user_id@,
                        new_password@,
                        user@,
                    )
                },
                Err(e) => {
                    &&& final(self).user_repo@ == old(self).user_repo@
                    &&& match owner_fault(old(self).user_repo@, user_id@, current_password@) {
                        Some(fault) => e == CoreError::Auth(fault),
                        None => match password_fault(new_password@) {
                            Some(fault) => e == CoreError::Auth(fault),
                            None => e == CoreError::Auth(AuthError::HashingError),
                        },
                    }
                },
            },
    {
        let user = match self.user_repo.find_by_id(user_id.clone()) {
            Ok(Some(user)) => user,
            Ok(None) => {
                return Err(CoreError::Auth(AuthError::UserNoLongerExists));
            },
            Err(e) => {
                return Err(e);
            },
        };
        let matches = match self.verify_password(current_password.as_str(), user.password.as_str()) {
            Ok(matches) => matches,
            Err(e) => {
                return Err(e);
            },
        };
        match Self::ensure_password_matches(matches) {
            Ok(()) => {},
            Err(e) => {
                return Err(e);
            },
        }
        self.reset_password(user_id, new_password)
    }

    /// Changes the name, the email address or both of the account. A new
    /// address must be free and have the form of an address; a new name must
    /// be a name. On any refusal the store stays as it was.
    pub fn update_profile(&mut self, user_id: String, name: Option<String>, email: Option<String>) -> (changed:
        Result<User, CoreError>)
        requires
            old(self).well_formed(),
        ensures
            final(self).well_formed(),
            match changed {
                Ok(user) => {
                    &&& profile_fault(
                        old(self).user_repo@,
                        user_id@,
                        opt_text(name),
                        opt_text(email),
                    ) is None
                    &&& has_user_id(old(self).user_repo@, user_id@)
                    &&& user@.id == user_id@
                    &&& profile_changed(
                        old(self).user_repo@,
                        final(self).user_repo@,
                        user_id@,
                        name,
                        email,
                        user@,
                    )
                },
                Err(e) => {
                    &&& final(self).user_repo@ == old(self).user_repo@
                    &&& match profile_fault(
                        old(self).user_repo@,
                        user_id@,
                        opt_text(name),
                        opt_text(email),
                    ) {
                        Some(fault) => e == CoreError::Auth(fault),
                        None => !has_user_id(old(self).user_repo@, user_id@)
                            && e matches CoreError::Db(DatabaseError::NotFound(_)),
                    }
                },
            },
    {
        if let Some(new_email) = &email {
            let current = match self.user_repo.find_by_id(user_id.clone()) {
                Ok(Some(user)) => user,
                Ok(None) => {
                    return Err(CoreError::Auth(AuthError::UserNoLongerExists));
                },
                Err(e) => {
                    return Err(e);
                },
            };
            if !str_eq(new_email.as_str(), current.email.as_str()) {
                let exists = match self.user_repo.email_exists(new_email.clone()) {
                    Ok(exists) => exists,
                    Err(e) => {
                        return Err(e);
                    },
                };
                match Self::ensure_email_free(exists) {
                    Ok(()) => {},
                    Err(e) => {
                        return Err(e);
                    },
                }
                match self.validate_email(new_email.as_str()) {
                    Ok(()) => {},
                    Err(e) => {
                        return Err(e);
                    },
                }
            }
        }
        if let Some(new_name) = &name {
            match self.validate_name(new_name.as_str()) {
                Ok(()) => {},
                Err(e) => {
                    return Err(e);
                },
            }
        }
        let ghost users = self.user_repo@;
        let now = unix_now();
        let changed = self.user_repo.update_profile(user_id, name, email, now);
        proof {
            lemma_find_user_finds_exactly(users, false, user_id@);
            if changed is Ok {
                let user = changed->Ok_0@;
                let i = choose|i: int|
                    0 <= i < users.len() && (#[trigger] users[i]).id == user_id@ && user
                        == user_changed(users[i], UserChange::Profile { name, email }, now)
                        && self.user_repo@ == users.update(i, user);
                lemma_unique_account_is_found(users, i);
            } else if changed matches Err(CoreError::Db(DatabaseError::ConstraintViolation(_))) {
                {
                    let wanted = email->Some_0@;
                    let other = choose|k: int|
                        0 <= k < users.len() && (#[trigger] users[k]).email == wanted
                            && users[k].id != user_id@;
                    let own = find_user(users, false, user_id@)->Some_0;
                    if wanted == own.email {
                        let c = choose|c: int| 0 <= c < users.len() && users[c] == own;
                        assert(users[c].email == users[other].email);
                    } else {
                        assert(has_email(users, wanted));
                    }
                }
            }
        }
        changed
    }

    /// Deletes the account, if there is one, and leaves every other account
    /// as it was. This never fails.
    pub fn delete_user(&mut self, user_id: String) -> (done: Result<(), CoreError>)
        requires
            old(self).well_formed(),
        ensures
            done is Ok,
            final(self).well_formed(),
            !has_user_id(final(self).user_repo@, user_id@),
            if has_user_id(old(self).user_repo@, user_id@) {
                one_removed(old(self).user_repo@, final(self).user_repo@, user_id@)
            } else {
                final(self).user_repo@ == old(self).user_repo@
            },
    {
        self.user_repo.delete(user_id)
    }
}

} // verus!
