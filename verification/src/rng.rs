//! The one source of randomness: the coin flip that picks which player
//! serves after a manual ball reset.

use vstd::prelude::*;

use rand::Rng;

verus! {

/// Relies on rand::thread_rng and rand::Rng::gen::<bool>: a fresh coin
/// flip. Nothing is promised of the outcome; every caller must be correct
/// for both results.
#[verifier::external_body]
pub(crate) fn random_bool() -> bool {
    rand::thread_rng().gen::<bool>()
}

} // verus!
