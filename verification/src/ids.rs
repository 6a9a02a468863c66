//! Fresh identifiers for tokens, sessions and traces.

use vstd::prelude::*;

verus! {

/// The length of an identifier in its hyphenated form.
pub const ID_LEN: usize = 36;

/// `uuid::Uuid::new_v4().to_string()`: a random identifier, written in the
/// hyphenated form of 36 characters. Which identifier it is, is not known
/// beforehand.
#[verifier::external_body]
pub(crate) fn fresh_id() -> (id: String)
    ensures
        id@.len() == ID_LEN,
{
    uuid::Uuid::new_v4().to_string()
}

} // verus!
