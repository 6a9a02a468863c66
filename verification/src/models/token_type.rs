//! The purposes for which a token is issued.

use crate::text::str_eq;
use vstd::prelude::*;
use vstd::string::*;

verus! {

/// The purpose of a token. There are four purposes, each signed with a
/// secret of its own: access, refresh, email verification and password
/// reset. `Invitation` is kept as a kind of stored record; it is no purpose
/// that a token is issued or read for.
#[derive(Debug, Clone, Copy, PartialEq, Eq, Structural)]
pub enum TokenType {
    Access,
    Refresh,
    EmailVerification,
    PasswordReset,
    Invitation,
}

impl TokenType {
    /// The purpose in lower-case words.
    pub open spec fn text(self) -> Seq<char> {
        match self {
            TokenType::Access => "access"@,
            TokenType::Refresh => "refresh"@,
            TokenType::EmailVerification => "email_verification"@,
            TokenType::PasswordReset => "password_reset"@,
            TokenType::Invitation => "invitation"@,
        }
    }

    /// Whether this is one of the four purposes of a token.
    pub open spec fn is_purpose(self) -> bool {
        self != TokenType::Invitation
    }

    /// The purpose that is written as `s` in lower-case words, if any: one
    /// of the four purposes, never anything else.
    pub open spec fn named(s: Seq<char>) -> Option<TokenType> {
        if s == "access"@ {
            Some(TokenType::Access)
        } else if s == "refresh"@ {
            Some(TokenType::Refresh)
        } else if s == "email_verification"@ {
            Some(TokenType::EmailVerification)
        } else if s == "password_reset"@ {
            Some(TokenType::PasswordReset)
        } else {
            None
        }
    }

    /// The purpose in lower-case words.
    pub fn to_str(&self) -> (s: &'static str)
        ensures
            s@ == self.text(),
    {
        match self {
            TokenType::Access => "access",
            TokenType::Refresh => "refresh",
            TokenType::EmailVerification => "email_verification",
            TokenType::PasswordReset => "password_reset",
            TokenType::Invitation => "invitation",
        }
    }

    /// Reads one of the four purposes by its lower-case words; any other
    /// text, the name of a stored record's kind too, gives `None`.
    pub fn from_str(s: &str) -> (found: Option<TokenType>)
        ensures
            found == Self::named(s@),
    {
        if str_eq(s, "access") {
            Some(TokenType::Access)
        } else if str_eq(s, "refresh") {
            Some(TokenType::Refresh)
        } else if str_eq(s, "email_verification") {
            Some(TokenType::EmailVerification)
        } else if str_eq(s, "password_reset") {
            Some(TokenType::PasswordReset)
        } else {
            None
        }
    }

    /// The purpose as it is written inside a token's payload.
    pub open spec fn wire_text(self) -> Seq<char> {
        match self {
            TokenType::Access => "Access"@,
            TokenType::Refresh => "Refresh"@,
            TokenType::EmailVerification => "EmailVerification"@,
            TokenType::PasswordReset => "PasswordReset"@,
            TokenType::Invitation => "Invitation"@,
        }
    }

    /// The purpose that a token's payload writes as `s`, if any: one of the
    /// four purposes, never anything else.
    pub open spec fn wire_named(s: Seq<char>) -> Option<TokenType> {
        if s == "Access"@ {
            Some(TokenType::Access)
        } else if s == "Refresh"@ {
            Some(TokenType::Refresh)
        } else if s == "EmailVerification"@ {
            Some(TokenType::EmailVerification)
        } else if s == "PasswordReset"@ {
            Some(TokenType::PasswordReset)
        } else {
            None
        }
    }

    /// The purpose as it is written inside a token's payload.
    pub fn wire_str(&self) -> (s: &'static str)
        ensures
            s@ == self.wire_text(),
    {
        match self {
            TokenType::Access => "Access",
            TokenType::Refresh => "Refresh",
            TokenType::EmailVerification => "EmailVerification",
            TokenType::PasswordReset => "PasswordReset",
            TokenType::Invitation => "Invitation",
        }
    }

    /// Reads a purpose as a token's payload writes it; any other text, the
    /// name of a stored record's kind too, gives `None`.
    pub fn from_wire(s: &str) -> (found: Option<TokenType>)
        ensures
            found == Self::wire_named(s@),
    {
        if str_eq(s, "Access") {
            Some(TokenType::Access)
        } else if str_eq(s, "Refresh") {
            Some(TokenType::Refresh)
        } else if str_eq(s, "EmailVerification") {
            Some(TokenType::EmailVerification)
        } else if str_eq(s, "PasswordReset") {
            Some(TokenType::PasswordReset)
        } else {
            None
        }
    }

    /// Reading what a payload writes for one of the four purposes gives that
    /// purpose back; what it writes for anything else is read as no purpose.
    pub proof fn lemma_wire_names_type(t: TokenType)
        ensures
            Self::wire_named(t.wire_text()) == if t.is_purpose() {
                Some(t)
            } else {
                None
            },
    {
        reveal_strlit("Access");
        reveal_strlit("Refresh");
        reveal_strlit("EmailVerification");
        reveal_strlit("PasswordReset");
        reveal_strlit("Invitation");
        assert("Access"@.len() == 6 && "Refresh"@.len() == 7);
        assert("EmailVerification"@.len() == 17 && "PasswordReset"@.len() == 13);
        assert("Invitation"@.len() == 10);
    }

    /// Reading the words of one of the four purposes gives that purpose
    /// back; the words of anything else are read as no purpose.
    pub proof fn lemma_text_names_type(t: TokenType)
        ensures
            Self::named(t.text()) == if t.is_purpose() {
                Some(t)
            } else {
                None
            },
    {
        reveal_strlit("access");
        reveal_strlit("refresh");
        reveal_strlit("email_verification");
        reveal_strlit("password_reset");
        reveal_strlit("invitation");
        assert("access"@.len() == 6 && "refresh"@.len() == 7);
        assert("email_verification"@.len() == 18 && "password_reset"@.len() == 14);
        assert("invitation"@.len() == 10);
    }
}

} // verus!
