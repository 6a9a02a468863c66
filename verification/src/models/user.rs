//! The accounts that log in.

use crate::clock::{is_timestamp, unix_now};
use crate::models::role::Role;
use vstd::prelude::*;

verus! {

/// An account. The password is kept as its hash. Times are seconds since
/// the Unix epoch.
#[derive(Debug)]
pub struct User {
    pub id: String,
    pub name: String,
    pub email: String,
    pub password: String,
    pub role: Role,
    pub verified: bool,
    pub created_at: Option<i64>,
    pub updated_at: Option<i64>,
}

/// What of an account may be shown to others: everything but the password.
#[derive(Debug)]
pub struct UserPublicInfo {
    pub id: String,
    pub name: String,
    pub email: String,
    pub role: Role,
    pub verified: bool,
    pub created_at: Option<i64>,
}

/// An account as a mathematical value.
pub struct UserView {
    pub id: Seq<char>,
    pub name: Seq<char>,
    pub email: Seq<char>,
    pub password: Seq<char>,
    pub role: Role,
    pub verified: bool,
    pub created_at: Option<i64>,
    pub updated_at: Option<i64>,
}

impl View for User {
    type V = UserView;

    open spec fn view(&self) -> UserView {
        UserView {
            id: self.id@,
            name: self.name@,
            email: self.email@,
            password: self.password@,
            role: self.role,
            verified: self.verified,
            created_at: self.created_at,
            updated_at: self.updated_at,
        }
    }
}

impl User {
    /// A new account at the second `now`: an ordinary user whose email
    /// address is not yet confirmed.
    pub fn new_at(id: String, name: String, email: String, password: String, now: i64) -> (user: Self)
        ensures
            user == (User {
                id,
                name,
                email,
                password,
                role: Role::User,
                verified: false,
                created_at: Some(now),
                updated_at: Some(now),
            }),
    {
        User {
            id,
            name,
            email,
            password,
            role: Role::User,
            verified: false,
            created_at: Some(now),
            updated_at: Some(now),
        }
    }

    /// A new account at the clock's current second: an ordinary user whose
    /// email address is not yet confirmed.
    pub fn new(id: String, name: String, email: String, password: String) -> (user: Self)
        ensures
            user == (User {
                id,
                name,
                email,
                password,
                role: Role::User,
                verified: false,
                created_at: user.created_at,
                updated_at: user.created_at,
            }),
            user.created_at matches Some(now) && is_timestamp(now as int),
    {
        Self::new_at(id, name, email, password, unix_now())
    }

    /// Whether the account is an administrator's.
    pub fn is_admin(&self) -> (yes: bool)
        ensures
            yes == (self.role == Role::Admin),
    {
        match self.role {
            Role::Admin => true,
            Role::User => false,
        }
    }

    /// What of the account may be shown to others.
    pub fn to_public_info(&self) -> (info: UserPublicInfo)
        ensures
            info == (UserPublicInfo {
                id: self.id,
                name: self.name,
                email: self.email,
                role: self.role,
                verified: self.verified,
                created_at: self.created_at,
            }),
    {
        UserPublicInfo {
            id: self.id.clone(),
            name: self.name.clone(),
            email: self.email.clone(),
            role: self.role,
            verified: self.verified,
            created_at: self.created_at,
        }
    }
}

impl Clone for User {
    fn clone(&self) -> (copy: Self)
        ensures
            copy == *self,
    {
        User {
            id: self.id.clone(),
            name: self.name.clone(),
            email: self.email.clone(),
            password: self.password.clone(),
            role: self.role,
            verified: self.verified,
            created_at: self.created_at,
            updated_at: self.updated_at,
        }
    }
}

impl Clone for UserPublicInfo {
    fn clone(&self) -> (copy: Self)
        ensures
            copy == *self,
    {
        UserPublicInfo {
            id: self.id.clone(),
            name: self.name.clone(),
            email: self.email.clone(),
            role: self.role,
            verified: self.verified,
            created_at: self.created_at,
        }
    }
}

} // verus!
