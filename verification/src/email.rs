//! The form of an email address.
//!
//! An address is a local part, `@`, a domain, `.`, and a top-level name:
//! the local part is one or more of letters, digits and `._%+-`; the domain
//! is one or more of letters, digits and `.-`; the top-level name is two or
//! more letters. Letters are those of ASCII.

use vstd::prelude::*;
use vstd::string::*;
use vstd::utf8::*;

verus! {

/// A letter of ASCII.
pub open spec fn is_letter(c: char) -> bool {
    ('a' <= c <= 'z') || ('A' <= c <= 'Z')
}

/// A digit.
pub open spec fn is_digit(c: char) -> bool {
    '0' <= c <= '9'
}

/// A character of the local part.
pub open spec fn is_local_char(c: char) -> bool {
    is_letter(c) || is_digit(c) || c == '.' || c == '_' || c == '%' || c == '+' || c == '-'
}

/// A character of the domain.
pub open spec fn is_domain_char(c: char) -> bool {
    is_letter(c) || is_digit(c) || c == '.' || c == '-'
}

/// Whether `s` is an address with its `@` at `at` and the `.` before its
/// top-level name at `dot`.
pub open spec fn splits_at(s: Seq<char>, at: int, dot: int) -> bool {
    &&& 0 < at
    &&& at + 1 < dot
    &&& dot + 2 < s.len()
    &&& s[at] == '@'
    &&& s[dot] == '.'
    &&& forall|i: int| 0 <= i < at ==> is_local_char(#[trigger] s[i])
    &&& forall|i: int| at < i < dot ==> is_domain_char(#[trigger] s[i])
    &&& forall|i: int| dot < i < s.len() ==> is_letter(#[trigger] s[i])
}

/// Whether `s` has the form of an email address.
pub open spec fn is_email(s: Seq<char>) -> bool {
    exists|at: int, dot: int| splits_at(s, at, dot)
}

fn letter(b: u8) -> (yes: bool)
    requires
        b < 128,
    ensures
        yes == is_letter(b as char),
{
    (b >= 97 && b <= 122) || (b >= 65 && b <= 90)
}

fn digit(b: u8) -> (yes: bool)
    requires
        b < 128,
    ensures
        yes == is_digit(b as char),
{
    b >= 48 && b <= 57
}

fn local_char(b: u8) -> (yes: bool)
    requires
        b < 128,
    ensures
        yes == is_local_char(b as char),
{
    letter(b) || digit(b) || b == 46 || b == 95 || b == 37 || b == 43 || b == 45
}

fn domain_char(b: u8) -> (yes: bool)
    requires
        b < 128,
    ensures
        yes == is_domain_char(b as char),
{
    letter(b) || digit(b) || b == 46 || b == 45
}

/// In an address every character belongs to ASCII.
pub proof fn lemma_email_is_ascii(s: Seq<char>)
    requires
        is_email(s),
    ensures
        is_ascii_chars(s),
{
    let (at, dot) = choose|at: int, dot: int| splits_at(s, at, dot);
    assert forall|i: int| 0 <= i < s.len() implies '\0' <= #[trigger] s[i] <= '\u{7f}' by {
        if i < at {
            assert(is_local_char(s[i]));
        } else if i == at {
        } else if i < dot {
            assert(is_domain_char(s[i]));
        } else if i == dot {
        } else {
            assert(is_letter(s[i]));
        }
    }
}

/// Whether `email` has the form of an email address.
pub fn check_email(email: &str) -> (ok: bool)
    ensures
        ok == is_email(email@),
{
    if !email.is_ascii() {
        proof {
            if is_email(email@) {
                lemma_email_is_ascii(email@);
            }
        }
        return false;
    }
    let bytes = email.as_bytes();
    let n = bytes.len();
    let ghost s = email@;
    proof {
        is_ascii_chars_encode_utf8(s);
        is_ascii_chars_nat_bound(s);
    }
    assert(n == s.len());
    assert(forall|i: int| 0 <= i < n ==> s[i] as u8 == #[trigger] bytes@[i] && bytes@[i] < 128);
    assert(forall|i: int| 0 <= i < n ==> #[trigger] s[i] == bytes@[i] as char);
    // the local part: up to the first `@`
    let mut at: usize = 0;
    while at < n && bytes[at] != 64
        invariant
            at <= n,
            n == s.len(),
            n == bytes@.len(),
            s == email@,
            forall|i: int| 0 <= i < n ==> #[trigger] bytes@[i] < 128,
            forall|i: int| 0 <= i < n ==> #[trigger] s[i] == bytes@[i] as char,
            forall|i: int| 0 <= i < at ==> is_local_char(#[trigger] s[i]) && s[i] != '@',
        decreases n - at,
    {
        if !local_char(bytes[at]) {
            proof {
                assert(!is_local_char(s[at as int]) && s[at as int] != '@');
                assert forall|a: int, d: int| !splits_at(s, a, d) by {
                    if splits_at(s, a, d) {
                        if a < at {
                            assert(s[a] != '@');
                        } else if a > at {
                            assert(is_local_char(s[at as int]));
                        }
                    }
                }
            }
            return false;
        }
        at += 1;
    }
    if at == 0 || at >= n {
        proof {
            assert forall|a: int, d: int| !splits_at(s, a, d) by {
                if splits_at(s, a, d) {
                    if a < at {
                        assert(s[a] != '@');
                    } else if at < n && a > at {
                        assert(is_local_char(s[at as int]));
                    }
                }
            }
        }
        return false;
    }
    assert(s[at as int] == '@');
    // the top-level name: back to the last `.`
    let mut dot: usize = n - 1;
    while dot > at && bytes[dot] != 46
        invariant
            at < n,
            at <= dot < n,
            n == s.len(),
            n == bytes@.len(),
            s[at as int] == '@',
            s == email@,
            forall|i: int| 0 <= i < n ==> #[trigger] bytes@[i] < 128,
            forall|i: int| 0 <= i < n ==> #[trigger] s[i] == bytes@[i] as char,
            forall|i: int| 0 <= i < at ==> is_local_char(#[trigger] s[i]) && s[i] != '@',
            forall|i: int| dot < i < n ==> is_letter(#[trigger] s[i]),
        decreases dot,
    {
        if !letter(bytes[dot]) {
            proof {
                assert(!is_letter(s[dot as int]) && s[dot as int] != '.');
                assert forall|a: int, d: int| !splits_at(s, a, d) by {
                    if splits_at(s, a, d) {
                        if a < at {
                            assert(s[a] != '@');
                        } else if a > at {
                            assert(is_local_char(s[at as int]));
                        } else if d < dot {
                            assert(is_letter(s[dot as int]));
                        } else if d > dot {
                            assert(is_letter(s[d]));
                        }
                    }
                }
            }
            return false;
        }
        dot -= 1;
    }
    if dot <= at + 1 || n - dot < 3 {
        proof {
            assert forall|a: int, d: int| !splits_at(s, a, d) by {
                if splits_at(s, a, d) {
                    if a < at {
                        assert(s[a] != '@');
                    } else if a > at {
                        assert(is_local_char(s[at as int]));
                    } else if d > dot {
                        assert(is_letter(s[d]));
                    } else if d < dot {
                        if dot > at {
                            assert(is_letter(s[dot as int]));
                        }
                    }
                }
            }
        }
        return false;
    }
    assert(s[dot as int] == '.');
    // the domain: between the two
    let mut i: usize = at + 1;
    while i < dot
        invariant
            at < i <= dot,
            dot < n,
            n == s.len(),
            n == bytes@.len(),
            s[at as int] == '@',
            s[dot as int] == '.',
            s == email@,
            forall|k: int| 0 <= k < n ==> #[trigger] bytes@[k] < 128,
            forall|k: int| 0 <= k < n ==> #[trigger] s[k] == bytes@[k] as char,
            forall|k: int| 0 <= k < at ==> is_local_char(#[trigger] s[k]) && s[k] != '@',
            forall|k: int| dot < k < n ==> is_letter(#[trigger] s[k]),
            forall|k: int| at < k < i ==> is_domain_char(#[trigger] s[k]),
        decreases dot - i,
    {
        if !domain_char(bytes[i]) {
            proof {
                assert(!is_domain_char(s[i as int]));
                assert forall|a: int, d: int| !splits_at(s, a, d) by {
                    if splits_at(s, a, d) {
                        if a < at {
                            assert(s[a] != '@');
                        } else if a > at {
                            assert(is_local_char(s[at as int]));
                        } else if d > dot {
                            assert(is_letter(s[d]));
                        } else if d < dot {
                            assert(is_letter(s[dot as int]));
                        } else {
                            assert(is_domain_char(s[i as int]));
                        }
                    }
                }
            }
            return false;
        }
        i += 1;
    }
    assert(splits_at(s, at as int, dot as int));
    true
}

} // verus!
