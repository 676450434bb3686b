//! Randomness from the operating system.

use rand::Rng;
use rand_chacha::rand_core::SeedableRng;
use rand_chacha::ChaCha20Rng;
use vstd::prelude::*;

verus! {

/// `rand_chacha::ChaCha20Rng`, a random number generator. Its state is
/// not looked into.
#[verifier::external_type_specification]
#[verifier::external_body]
pub struct ExChaCha20Rng(ChaCha20Rng);

/// `ChaCha20Rng::from_entropy`: a generator that is seeded afresh from the
/// operating system. Nothing is claimed of what it will give. The call
/// panics if the operating system has no entropy to offer.
#[verifier::external_body]
pub(crate) fn entropy_rng() -> ChaCha20Rng {
    ChaCha20Rng::from_entropy()
}

/// `Rng::gen_range` on the range `0..bound`: some index below `bound`.
#[verifier::external_body]
pub(crate) fn random_index(rng: &mut ChaCha20Rng, bound: usize) -> (index: usize)
    requires
        bound > 0,
    ensures
        index < bound,
{
    rng.gen_range(0..bound)
}

} // verus!
