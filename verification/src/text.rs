//! Comparisons of text, stated over the characters that a string holds.

use vstd::prelude::*;
use vstd::string::*;
use vstd::utf8::*;

verus! {

/// Two texts with the same UTF-8 bytes hold the same characters.
pub proof fn lemma_same_bytes_same_chars(a: Seq<char>, b: Seq<char>)
    requires
        encode_utf8(a) == encode_utf8(b),
    ensures
        a == b,
{
    encode_utf8_decode_utf8(a);
    encode_utf8_decode_utf8(b);
}

/// Whether two strings hold the same characters.
pub fn str_eq(a: &str, b: &str) -> (same: bool)
    ensures
        same == (a@ == b@),
{
    let x = a.as_bytes();
    let y = b.as_bytes();
    if x.len() != y.len() {
        return false;
    }
    let mut i: usize = 0;
    while i < x.len()
        invariant
            x@ == encode_utf8(a@),
            y@ == encode_utf8(b@),
            x.len() == y.len(),
            i <= x.len(),
            forall|k: int| 0 <= k < i ==> x@[k] == y@[k],
        decreases x.len() - i,
    {
        if x[i] != y[i] {
            return false;
        }
        i += 1;
    }
    proof {
        assert(x@ =~= y@);
        lemma_same_bytes_same_chars(a@, b@);
    }
    true
}

/// The text of a decimal digit.
pub open spec fn digit_text(d: int) -> Seq<char> {
    if d == 0 {
        "0"@
    } else if d == 1 {
        "1"@
    } else if d == 2 {
        "2"@
    } else if d == 3 {
        "3"@
    } else if d == 4 {
        "4"@
    } else if d == 5 {
        "5"@
    } else if d == 6 {
        "6"@
    } else if d == 7 {
        "7"@
    } else if d == 8 {
        "8"@
    } else {
        "9"@
    }
}

/// The number in decimal digits, without leading zeros.
pub open spec fn decimal_text(n: nat) -> Seq<char>
    decreases n,
{
    if n < 10 {
        digit_text(n as int)
    } else {
        decimal_text(n / 10) + digit_text((n % 10) as int)
    }
}

/// The text of a decimal digit.
fn digit_str(d: u64) -> (s: &'static str)
    requires
        d < 10,
    ensures
        s@ == digit_text(d as int),
{
    if d == 0 {
        "0"
    } else if d == 1 {
        "1"
    } else if d == 2 {
        "2"
    } else if d == 3 {
        "3"
    } else if d == 4 {
        "4"
    } else if d == 5 {
        "5"
    } else if d == 6 {
        "6"
    } else if d == 7 {
        "7"
    } else if d == 8 {
        "8"
    } else {
        "9"
    }
}

/// The number in decimal digits, without leading zeros.
pub fn decimal(n: u64) -> (text: String)
    ensures
        text@ == decimal_text(n as nat),
{
    let mut text = digit_str(n % 10).to_owned();
    let mut rest = n / 10;
    while rest > 0
        invariant
            decimal_text(n as nat) == if rest > 0 {
                decimal_text(rest as nat) + text@
            } else {
                text@
            },
        decreases rest,
    {
        let ghost before = text@;
        let ghost head = decimal_text((rest / 10) as nat);
        let ghost low = digit_text((rest % 10) as int);
        text = digit_str(rest % 10).to_owned().concat(text.as_str());
        assert(rest >= 10 ==> (head + low) + before =~= head + (low + before));
        rest = rest / 10;
    }
    text
}

/// Whether the character is white space: a blank, a tab, a line break, or
/// one of the other spaces of Unicode.
pub open spec fn is_whitespace(c: char) -> bool {
    let u = c as u32;
    ||| 0x09 <= u <= 0x0d
    ||| u == 0x20
    ||| u == 0x85
    ||| u == 0xa0
    ||| u == 0x1680
    ||| 0x2000 <= u <= 0x200a
    ||| u == 0x2028
    ||| u == 0x2029
    ||| u == 0x202f
    ||| u == 0x205f
    ||| u == 0x3000
}

/// Whether the text holds nothing but white space.
pub open spec fn is_blank(s: Seq<char>) -> bool {
    forall|i: int| 0 <= i < s.len() ==> is_whitespace(#[trigger] s[i])
}

/// Whether the character is white space.
pub fn whitespace(c: char) -> (yes: bool)
    ensures
        yes == is_whitespace(c),
{
    let u = c as u32;
    (0x09 <= u && u <= 0x0d) || u == 0x20 || u == 0x85 || u == 0xa0 || u == 0x1680 || (0x2000 <= u
        && u <= 0x200a) || u == 0x2028 || u == 0x2029 || u == 0x202f || u == 0x205f || u == 0x3000
}

/// Whether the text holds nothing but white space. The time this takes
/// grows with the square of the text's length.
pub fn blank(s: &str) -> (yes: bool)
    ensures
        yes == is_blank(s@),
{
    let n = s.unicode_len();
    let mut i: usize = 0;
    while i < n
        invariant
            n == s@.len(),
            i <= n,
            forall|k: int| 0 <= k < i ==> is_whitespace(#[trigger] s@[k]),
        decreases n - i,
    {
        if !whitespace(s.get_char(i)) {
            return false;
        }
        i += 1;
    }
    true
}

/// Whether `part` occurs in `whole` as a run of consecutive bytes.
pub open spec fn occurs_in(part: Seq<u8>, whole: Seq<u8>) -> bool {
    exists|i: int| 0 <= i <= whole.len() - part.len() && #[trigger] whole.subrange(
        i,
        i + part.len(),
    ) == part
}

/// Whether the bytes of `part` occur at `at` in `whole`.
fn occurs_at(part: &[u8], whole: &[u8], at: usize) -> (yes: bool)
    requires
        at + part.len() <= whole.len(),
    ensures
        yes == (whole@.subrange(at as int, at + part.len()) == part@),
{
    let mut k: usize = 0;
    while k < part.len()
        invariant
            k <= part.len(),
            at + part.len() <= whole.len(),
            forall|j: int| 0 <= j < k ==> whole@[at + j] == part@[j],
        decreases part.len() - k,
    {
        if whole[at + k] != part[k] {
            assert(whole@.subrange(at as int, at + part.len())[k as int] != part@[k as int]);
            return false;
        }
        k += 1;
    }
    assert(whole@.subrange(at as int, at + part.len()) =~= part@);
    true
}

/// Whether the text `part` occurs in the text `whole`, byte for byte.
pub fn contains_text(whole: &str, part: &str) -> (yes: bool)
    ensures
        yes == occurs_in(encode_utf8(part@), encode_utf8(whole@)),
{
    let w = whole.as_bytes();
    let p = part.as_bytes();
    if p.len() > w.len() {
        return false;
    }
    let last = w.len() - p.len();
    let mut i: usize = 0;
    while i < last
        invariant
            w@ == encode_utf8(whole@),
            p@ == encode_utf8(part@),
            p.len() <= w.len(),
            last == w.len() - p.len(),
            i <= last,
            forall|j: int| 0 <= j < i ==> #[trigger] w@.subrange(j, j + p@.len()) != p@,
        decreases last - i,
    {
        if occurs_at(p, w, i) {
            return true;
        }
        i += 1;
    }
    occurs_at(p, w, last)
}

/// Whether the character is a decimal digit.
pub open spec fn is_digit(c: char) -> bool {
    '0' <= c <= '9'
}

/// Whether the text holds nothing but decimal digits.
pub open spec fn all_digits(s: Seq<char>) -> bool {
    forall|i: int| 0 <= i < s.len() ==> is_digit(#[trigger] s[i])
}

/// The number that a text of decimal digits writes; leading zeros count
/// for nothing.
pub open spec fn digits_value(s: Seq<char>) -> nat
    decreases s.len(),
{
    if s.len() == 0 {
        0
    } else {
        digits_value(s.drop_last()) * 10 + (s.last() as u32 - 48) as nat
    }
}

/// The number that a text writes without a sign or after a `+`: one or more
/// decimal digits. Any other text writes no number.
pub open spec fn unsigned_number(s: Seq<char>) -> Option<nat> {
    let body = if s.len() > 0 && s[0] == '+' {
        s.skip(1)
    } else {
        s
    };
    if body.len() > 0 && all_digits(body) {
        Some(digits_value(body))
    } else {
        None
    }
}

/// The number that a text writes with or without a sign: one or more
/// decimal digits, after `-` for a negative number. Any other text writes
/// no number.
pub open spec fn signed_number(s: Seq<char>) -> Option<int> {
    if s.len() > 0 && s[0] == '-' {
        let body = s.skip(1);
        if body.len() > 0 && all_digits(body) {
            Some(-(digits_value(body) as int))
        } else {
            None
        }
    } else {
        match unsigned_number(s) {
            Some(n) => Some(n as int),
            None => None,
        }
    }
}

/// The digits at the front of a number write no more than the whole.
pub proof fn lemma_front_digits_write_less(s: Seq<char>, k: int)
    requires
        0 <= k <= s.len(),
        all_digits(s),
    ensures
        digits_value(s.take(k)) <= digits_value(s),
    decreases s.len(),
{
    if k < s.len() {
        assert(is_digit(s.last()));
        assert(s.drop_last().take(k) =~= s.take(k));
        lemma_front_digits_write_less(s.drop_last(), k);
    } else {
        assert(s.take(k) =~= s);
    }
}

/// The number that the text writes from its character `from` on, if that is
/// one or more decimal digits and the number is at most `limit`.
fn magnitude(s: &str, from: usize, limit: u64) -> (found: Option<u64>)
    requires
        is_ascii_chars(s@),
        from <= s@.len(),
    ensures
        found == if s@.skip(from as int).len() > 0 && all_digits(s@.skip(from as int))
            && digits_value(s@.skip(from as int)) <= limit {
            Some(digits_value(s@.skip(from as int)) as u64)
        } else {
            None
        },
{
    let bytes = s.as_bytes();
    let n = bytes.len();
    let ghost body = s@.skip(from as int);
    proof {
        is_ascii_chars_encode_utf8(s@);
    }
    if from >= n {
        return None;
    }
    let mut acc: u64 = 0;
    let mut i: usize = from;
    assert(body.take(0) =~= Seq::<char>::empty());
    while i < n
        invariant
            from <= i <= n,
            n == s@.len(),
            n == bytes@.len(),
            bytes@ == encode_utf8(s@),
            body == s@.skip(from as int),
            forall|k: int| 0 <= k < n ==> s@[k] as u8 == #[trigger] bytes@[k],
            forall|k: int| 0 <= k < n ==> '\0' <= #[trigger] s@[k] <= '\u{7f}',
            all_digits(body.take(i - from)),
            acc == digits_value(body.take(i - from)),
            acc <= limit,
        decreases n - i,
    {
        let b = bytes[i];
        let ghost c = s@[i as int];
        assert(body[i - from] == c);
        assert(c as u8 == b);
        if b < 48 || b > 57 {
            assert(!is_digit(body[i - from]));
            return None;
        }
        let d = (b - 48) as u64;
        let ghost next = body.take(i - from + 1);
        proof {
            assert(next.drop_last() =~= body.take(i - from));
            assert(next.last() == c);
            assert(is_digit(c));
            assert(digits_value(next) == acc * 10 + d);
        }
        if acc > limit / 10 || (acc == limit / 10 && d > limit % 10) {
            proof {
                assert(acc * 10 + d > limit);
                if all_digits(body) {
                    lemma_front_digits_write_less(body, i - from + 1);
                }
            }
            return None;
        }
        acc = acc * 10 + d;
        i += 1;
    }
    assert(body.take(n - from) =~= body);
    Some(acc)
}

/// Reads a port: a number from 0 to 65535 in decimal digits, with or
/// without `+` before it.
pub fn parse_u16(s: &str) -> (found: Option<u16>)
    ensures
        found == match unsigned_number(s@) {
            Some(n) => if n <= u16::MAX {
                Some(n as u16)
            } else {
                None
            },
            None => None,
        },
{
    if !s.is_ascii() {
        proof {
            lemma_number_is_ascii(s@);
        }
        return None;
    }
    proof {
        is_ascii_chars_encode_utf8(s@);
    }
    let bytes = s.as_bytes();
    let from: usize = if bytes.len() > 0 && bytes[0] == 43 {
        1
    } else {
        0
    };
    assert(from == 1 <==> (s@.len() > 0 && s@[0] == '+')) by {
        if s@.len() > 0 {
            assert(s@[0] as u8 == bytes@[0]);
        }
    }
    assert(s@.skip(0) =~= s@);
    match magnitude(s, from, 65535) {
        Some(n) => Some(n as u16),
        None => None,
    }
}

/// Reads a number of seconds: a number that fits 64 bits, in decimal
/// digits, with or without a sign before it.
pub fn parse_i64(s: &str) -> (found: Option<i64>)
    ensures
        found == match signed_number(s@) {
            Some(n) => if i64::MIN <= n <= i64::MAX {
                Some(n as i64)
            } else {
                None
            },
            None => None,
        },
{
    if !s.is_ascii() {
        proof {
            lemma_number_is_ascii(s@);
        }
        return None;
    }
    proof {
        is_ascii_chars_encode_utf8(s@);
    }
    let bytes = s.as_bytes();
    let negative = bytes.len() > 0 && bytes[0] == 45;
    let plus = bytes.len() > 0 && bytes[0] == 43;
    proof {
        if s@.len() > 0 {
            assert(s@[0] as u8 == bytes@[0]);
        }
    }
    assert(negative <==> (s@.len() > 0 && s@[0] == '-'));
    assert(plus <==> (s@.len() > 0 && s@[0] == '+'));
    assert(s@.skip(0) =~= s@);
    if negative {
        match magnitude(s, 1, 0x8000_0000_0000_0000) {
            Some(n) => {
                if n == 0x8000_0000_0000_0000 {
                    Some(i64::MIN)
                } else {
                    Some(-(n as i64))
                }
            },
            None => None,
        }
    } else {
        let from: usize = if plus {
            1
        } else {
            0
        };
        match magnitude(s, from, 0x7fff_ffff_ffff_ffff) {
            Some(n) => Some(n as i64),
            None => None,
        }
    }
}

/// A text that writes a number holds characters of ASCII alone.
pub proof fn lemma_number_is_ascii(s: Seq<char>)
    requires
        !is_ascii_chars(s),
    ensures
        unsigned_number(s) is None,
        signed_number(s) is None,
{
    let i = choose|i: int| 0 <= i < s.len() && !('\0' <= #[trigger] s[i] <= '\u{7f}');
    assert(!is_digit(s[i]) && s[i] != '+' && s[i] != '-');
    if i == 0 {
        assert(!all_digits(s));
    } else {
        assert(s.skip(1)[i - 1] == s[i]);
        assert(!all_digits(s.skip(1)));
        assert(!all_digits(s));
    }
}

} // verus!
