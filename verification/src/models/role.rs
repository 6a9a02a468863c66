use crate::text::str_eq;
use vstd::prelude::*;
use vstd::string::*;

verus! {

/// The role a user holds; it decides the default scopes of an access token.
#[derive(Debug, Clone, Copy, PartialEq, Eq, Structural)]
pub enum Role {
    Admin,
    User,
}

impl Role {
    /// The role's name as text.
    pub open spec fn name(self) -> Seq<char> {
        match self {
            Role::Admin => "Admin"@,
            Role::User => "User"@,
        }
    }

    /// The role that is written as `s`, if any.
    pub open spec fn named(s: Seq<char>) -> Option<Role> {
        if s == "Admin"@ {
            Some(Role::Admin)
        } else if s == "User"@ {
            Some(Role::User)
        } else {
            None
        }
    }

    /// The role's name.
    pub fn to_str(&self) -> (s: &'static str)
        ensures
            s@ == self.name(),
    {
        match self {
            Role::Admin => "Admin",
            Role::User => "User",
        }
    }

    /// Reads a role by its name; any other text gives `None`.
    pub fn from_str(s: &str) -> (found: Option<Role>)
        ensures
            found == Self::named(s@),
    {
        if str_eq(s, "Admin") {
            Some(Role::Admin)
        } else if str_eq(s, "User") {
            Some(Role::User)
        } else {
            None
        }
    }

    /// A name that names a role is that role's name.
    pub proof fn lemma_named_is_written_so(s: Seq<char>)
        ensures
            Self::named(s) matches Some(role) ==> role.name() == s,
    {
    }

    /// Reading the name of a role gives that role back.
    pub proof fn lemma_name_names_role(role: Role)
        ensures
            Self::named(role.name()) == Some(role),
    {
        reveal_strlit("Admin");
        reveal_strlit("User");
        assert("Admin"@.len() == 5 && "User"@.len() == 4);
    }
}

} // verus!
