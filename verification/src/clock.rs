//! The wall clock, read in whole seconds since the Unix epoch.

use vstd::prelude::*;

verus! {

/// Whether `t` can be the timestamp of a `chrono::DateTime`: chrono counts
/// days in 32 bits, so every timestamp lies well inside 48 bits.
pub open spec fn is_timestamp(t: int) -> bool {
    -0x1_0000_0000_0000 < t < 0x1_0000_0000_0000
}

/// `chrono::Utc::now().timestamp()`: the current time in seconds since the
/// Unix epoch. Which second it is, is not known beforehand; it is one that a
/// `chrono::DateTime` can hold.
#[verifier::external_body]
pub(crate) fn unix_now() -> (now: i64)
    ensures
        is_timestamp(now as int),
{
    chrono::Utc::now().timestamp()
}

/// The text that `chrono` writes for the second `secs` in the form of
/// RFC 3339, in UTC; `None` for a second that no `chrono::DateTime` holds.
pub uninterp spec fn rfc3339_text(secs: int) -> Option<Seq<char>>;

/// `chrono::DateTime::from_timestamp(secs, 0)` and, on what it gives,
/// `to_rfc3339`: the second as text, such as `2015-05-15T00:00:00+00:00`.
#[verifier::external_body]
pub(crate) fn rfc3339(secs: i64) -> (text: Option<String>)
    ensures
        match text {
            Some(t) => rfc3339_text(secs as int) == Some(t@),
            None => rfc3339_text(secs as int) is None,
        },
{
    chrono::DateTime::from_timestamp(secs, 0).map(|at| at.to_rfc3339())
}

} // verus!
