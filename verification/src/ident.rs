//! Identifiers for memos, folders, books, notes, sessions and events.

use vstd::prelude::*;

verus! {

/// The length of a UUID in its hyphenated form.
pub const UUID_TEXT_LEN: usize = 36;

/// Calls `uuid::Uuid::new_v4().to_string()`: a random UUID in lower-case
/// hyphenated form, which is always 36 characters long. Trusted; the length
/// is all that holds of every outcome. The call panics where the operating
/// system hands out no random bytes.
#[verifier::external_body]
pub(crate) fn fresh_id() -> (id: String)
    ensures
        id@.len() == UUID_TEXT_LEN,
{
    uuid::Uuid::new_v4().to_string()
}

} // verus!
