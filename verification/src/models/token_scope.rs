//! The capabilities that a token can grant.

use crate::text::str_eq;
use vstd::prelude::*;
use vstd::std_specs::cmp::PartialEqSpecImpl;
use vstd::string::*;

verus! {

/// A capability tag: one of a fixed vocabulary, or any other text, which is
/// kept as it was written.
#[derive(Debug)]
pub enum TokenScope {
    Read,
    Write,
    Delete,
    UserRead,
    UserWrite,
    UserDelete,
    AdminRead,
    AdminWrite,
    AdminDelete,
    Refresh,
    EmailVerify,
    PasswordReset,
    Custom(String),
}

impl TokenScope {
    /// The scope's text form. Two scopes are the same scope when their text
    /// forms are equal.
    pub open spec fn text(self) -> Seq<char> {
        match self {
            TokenScope::Read => "read"@,
            TokenScope::Write => "write"@,
            TokenScope::Delete => "delete"@,
            TokenScope::UserRead => "user:read"@,
            TokenScope::UserWrite => "user:write"@,
            TokenScope::UserDelete => "user:delete"@,
            TokenScope::AdminRead => "admin:read"@,
            TokenScope::AdminWrite => "admin:write"@,
            TokenScope::AdminDelete => "admin:delete"@,
            TokenScope::Refresh => "refresh"@,
            TokenScope::EmailVerify => "email:verify"@,
            TokenScope::PasswordReset => "password:reset"@,
            TokenScope::Custom(scope) => scope@,
        }
    }

    /// The scope of the fixed vocabulary that is written as `s`, if any.
    pub open spec fn named(s: Seq<char>) -> Option<TokenScope> {
        if s == "read"@ {
            Some(TokenScope::Read)
        } else if s == "write"@ {
            Some(TokenScope::Write)
        } else if s == "delete"@ {
            Some(TokenScope::Delete)
        } else if s == "user:read"@ {
            Some(TokenScope::UserRead)
        } else if s == "user:write"@ {
            Some(TokenScope::UserWrite)
        } else if s == "user:delete"@ {
            Some(TokenScope::UserDelete)
        } else if s == "admin:read"@ {
            Some(TokenScope::AdminRead)
        } else if s == "admin:write"@ {
            Some(TokenScope::AdminWrite)
        } else if s == "admin:delete"@ {
            Some(TokenScope::AdminDelete)
        } else if s == "refresh"@ {
            Some(TokenScope::Refresh)
        } else if s == "email:verify"@ {
            Some(TokenScope::EmailVerify)
        } else if s == "password:reset"@ {
            Some(TokenScope::PasswordReset)
        } else {
            None
        }
    }

    /// The text forms of a list of scopes, in order.
    pub open spec fn texts(scopes: Seq<TokenScope>) -> Seq<Seq<char>> {
        scopes.map_values(|scope: TokenScope| scope.text())
    }

    /// The scope's text form, borrowed.
    pub fn as_str(&self) -> (s: &str)
        ensures
            s@ == self.text(),
    {
        match self {
            TokenScope::Read => "read",
            TokenScope::Write => "write",
            TokenScope::Delete => "delete",
            TokenScope::UserRead => "user:read",
            TokenScope::UserWrite => "user:write",
            TokenScope::UserDelete => "user:delete",
            TokenScope::AdminRead => "admin:read",
            TokenScope::AdminWrite => "admin:write",
            TokenScope::AdminDelete => "admin:delete",
            TokenScope::Refresh => "refresh",
            TokenScope::EmailVerify => "email:verify",
            TokenScope::PasswordReset => "password:reset",
            TokenScope::Custom(scope) => scope.as_str(),
        }
    }

    /// The scope's text form.
    pub fn to_str(&self) -> (s: String)
        ensures
            s@ == self.text(),
    {
        self.as_str().to_owned()
    }

    /// Reads a scope of the fixed vocabulary; any other text gives `None`.
    pub fn from_str(scope: &str) -> (found: Option<TokenScope>)
        ensures
            found == Self::named(scope@),
    {
        if str_eq(scope, "read") {
            Some(TokenScope::Read)
        } else if str_eq(scope, "write") {
            Some(TokenScope::Write)
        } else if str_eq(scope, "delete") {
            Some(TokenScope::Delete)
        } else if str_eq(scope, "user:read") {
            Some(TokenScope::UserRead)
        } else if str_eq(scope, "user:write") {
            Some(TokenScope::UserWrite)
        } else if str_eq(scope, "user:delete") {
            Some(TokenScope::UserDelete)
        } else if str_eq(scope, "admin:read") {
            Some(TokenScope::AdminRead)
        } else if str_eq(scope, "admin:write") {
            Some(TokenScope::AdminWrite)
        } else if str_eq(scope, "admin:delete") {
            Some(TokenScope::AdminDelete)
        } else if str_eq(scope, "refresh") {
            Some(TokenScope::Refresh)
        } else if str_eq(scope, "email:verify") {
            Some(TokenScope::EmailVerify)
        } else if str_eq(scope, "password:reset") {
            Some(TokenScope::PasswordReset)
        } else {
            None
        }
    }

    /// Reads any text as a scope: a word of the fixed vocabulary gives that
    /// scope, any other text is kept unchanged as a custom scope. The result
    /// is written back as the same text.
    pub fn parse(scope: &str) -> (parsed: TokenScope)
        ensures
            parsed.text() == scope@,
            parsed == match Self::named(scope@) {
                Some(known) => known,
                None => TokenScope::Custom(parsed->Custom_0),
            },
    {
        match TokenScope::from_str(scope) {
            Some(known) => {
                proof {
                    Self::lemma_named_is_written_so(scope@);
                }
                known
            },
            None => TokenScope::Custom(scope.to_owned()),
        }
    }

    /// Whether `list` holds the scope, compared by text form.
    pub fn is_in(&self, list: &[TokenScope]) -> (found: bool)
        ensures
            found == Self::texts(list@).contains(self.text()),
    {
        let mut i: usize = 0;
        while i < list.len()
            invariant
                i <= list.len(),
                forall|k: int| 0 <= k < i ==> Self::texts(list@)[k] != self.text(),
            decreases list.len() - i,
        {
            if str_eq(list[i].as_str(), self.as_str()) {
                assert(Self::texts(list@)[i as int] == self.text());
                return true;
            }
            i += 1;
        }
        false
    }

    /// A copy of a list of scopes.
    pub fn clone_list(list: &Vec<TokenScope>) -> (copy: Vec<TokenScope>)
        ensures
            copy@ == list@,
    {
        let mut copy: Vec<TokenScope> = Vec::new();
        let mut i: usize = 0;
        while i < list.len()
            invariant
                i <= list.len(),
                copy@ == list@.subrange(0, i as int),
            decreases list.len() - i,
        {
            copy.push(list[i].clone());
            assert(copy@ =~= list@.subrange(0, i + 1));
            i += 1;
        }
        assert(list@.subrange(0, list.len() as int) =~= list@);
        copy
    }

    /// A word of the fixed vocabulary names the scope that is written so.
    pub proof fn lemma_named_is_written_so(s: Seq<char>)
        ensures
            Self::named(s) matches Some(known) ==> known.text() == s && !(known is Custom),
    {
    }

    /// Reading the text form of a scope of the fixed vocabulary gives that
    /// scope back.
    pub proof fn lemma_text_names_scope(scope: TokenScope)
        requires
            !(scope is Custom),
        ensures
            Self::named(scope.text()) == Some(scope),
    {
        reveal_strlit("read");
        reveal_strlit("write");
        reveal_strlit("delete");
        reveal_strlit("user:read");
        reveal_strlit("user:write");
        reveal_strlit("user:delete");
        reveal_strlit("admin:read");
        reveal_strlit("admin:write");
        reveal_strlit("admin:delete");
        reveal_strlit("refresh");
        reveal_strlit("email:verify");
        reveal_strlit("password:reset");
        assert("read"@.len() == 4 && "write"@.len() == 5 && "delete"@.len() == 6);
        assert("user:read"@.len() == 9 && "user:write"@.len() == 10 && "user:delete"@.len() == 11);
        assert("admin:read"@.len() == 10 && "admin:write"@.len() == 11);
        assert("admin:delete"@.len() == 12 && "refresh"@.len() == 7);
        assert("email:verify"@.len() == 12 && "password:reset"@.len() == 14);
        assert("user:write"@[0] != "admin:read"@[0]);
        assert("user:delete"@[0] != "admin:write"@[0]);
        assert("admin:delete"@[0] != "email:verify"@[0]);
    }
}

impl Clone for TokenScope {
    fn clone(&self) -> (copy: Self)
        ensures
            copy == *self,
    {
        match self {
            TokenScope::Read => TokenScope::Read,
            TokenScope::Write => TokenScope::Write,
            TokenScope::Delete => TokenScope::Delete,
            TokenScope::UserRead => TokenScope::UserRead,
            TokenScope::UserWrite => TokenScope::UserWrite,
            TokenScope::UserDelete => TokenScope::UserDelete,
            TokenScope::AdminRead => TokenScope::AdminRead,
            TokenScope::AdminWrite => TokenScope::AdminWrite,
            TokenScope::AdminDelete => TokenScope::AdminDelete,
            TokenScope::Refresh => TokenScope::Refresh,
            TokenScope::EmailVerify => TokenScope::EmailVerify,
            TokenScope::PasswordReset => TokenScope::PasswordReset,
            TokenScope::Custom(scope) => TokenScope::Custom(scope.clone()),
        }
    }
}

impl PartialEq for TokenScope {
    /// Scopes are compared by their text form.
    fn eq(&self, other: &Self) -> (same: bool) {
        str_eq(self.as_str(), other.as_str())
    }
}

impl PartialEqSpecImpl for TokenScope {
    open spec fn obeys_eq_spec() -> bool {
        true
    }

    open spec fn eq_spec(&self, other: &Self) -> bool {
        self.text() == other.text()
    }
}

impl Eq for TokenScope {

}

} // verus!
