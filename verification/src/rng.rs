//! Randomness from the process-wide generator: the fresh identifiers
//! the stores assign on insertion.

use vstd::prelude::*;

verus! {

/// Relies on `rand::random`: an identifier drawn from the thread-local
/// generator. Nothing can be promised of a random draw; a caller tests
/// the drawn identifier for freshness itself.
#[verifier::external_body]
pub(crate) fn random_id() -> u128 {
    rand::random()
}

} // verus!
