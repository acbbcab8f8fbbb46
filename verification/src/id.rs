//! Identifier generation: globally unique, lexicographically
//! time-sortable strings, produced without coordination.

use vstd::prelude::*;

verus! {

/// Relies on `ulid::Ulid::generate` and `ulid::Ulid::to_string`: a fresh
/// ULID from the system clock and a random source, rendered as its
/// 26-character Crockford base32 text (`ulid::ULID_LEN`). Generation is
/// infallible; a clock before the epoch is clamped, not an error. Two
/// calls may return anything, including (with negligible probability)
/// the same text, so no uniqueness is assumed here: the store's own
/// collision check is what the library proves things from.
#[verifier::external_body]
pub(crate) fn new_id() -> (r: String)
    ensures
        r@.len() == 26,
{
    ulid::Ulid::generate().to_string()
}

} // verus!
