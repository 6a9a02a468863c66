//! The states of a stored token record.

use crate::text::str_eq;
use vstd::prelude::*;
use vstd::string::*;

verus! {

/// The state of a stored token record.
#[derive(Debug, Clone, Copy, PartialEq, Eq, Structural)]
pub enum TokenStatus {
    Active,
    Expired,
    Revoked,
    Used,
}

impl TokenStatus {
    /// The state in lower-case words.
    pub open spec fn text(self) -> Seq<char> {
        match self {
            TokenStatus::Active => "active"@,
            TokenStatus::Expired => "expired"@,
            TokenStatus::Revoked => "revoked"@,
            TokenStatus::Used => "used"@,
        }
    }

    /// The state that is written as `s`, if any.
    pub open spec fn named(s: Seq<char>) -> Option<TokenStatus> {
        if s == "active"@ {
            Some(TokenStatus::Active)
        } else if s == "expired"@ {
            Some(TokenStatus::Expired)
        } else if s == "revoked"@ {
            Some(TokenStatus::Revoked)
        } else if s == "used"@ {
            Some(TokenStatus::Used)
        } else {
            None
        }
    }

    /// The state in lower-case words.
    pub fn to_str(&self) -> (s: &'static str)
        ensures
            s@ == self.text(),
    {
        match self {
            TokenStatus::Active => "active",
            TokenStatus::Expired => "expired",
            TokenStatus::Revoked => "revoked",
            TokenStatus::Used => "used",
        }
    }

    /// Reads a state by its words; any other text gives `None`.
    pub fn from_str(s: &str) -> (found: Option<TokenStatus>)
        ensures
            found == Self::named(s@),
    {
        if str_eq(s, "active") {
            Some(TokenStatus::Active)
        } else if str_eq(s, "expired") {
            Some(TokenStatus::Expired)
        } else if str_eq(s, "revoked") {
            Some(TokenStatus::Revoked)
        } else if str_eq(s, "used") {
            Some(TokenStatus::Used)
        } else {
            None
        }
    }

    /// Reading the words of a state gives that state back.
    pub proof fn lemma_text_names_status(status: TokenStatus)
        ensures
            Self::named(status.text()) == Some(status),
    {
        reveal_strlit("active");
        reveal_strlit("expired");
        reveal_strlit("revoked");
        reveal_strlit("used");
        assert("active"@.len() == 6 && "expired"@.len() == 7 && "revoked"@.len() == 7);
        assert("used"@.len() == 4);
        assert("expired"@[0] != "revoked"@[0]);
    }
}

} // verus!
