//! The seed of the generator that setup and proving draw their randomness
//! from.

use rand_chacha::rand_core::SeedableRng;
use rand_chacha::ChaCha20Rng;
use vstd::prelude::*;

verus! {

/// The number that every prover seeds its generator with. A fixed seed makes
/// generated artifacts reproducible; it offers no secrecy.
pub const RNG_SEED: u64 = 2;

/// The 32 seed bytes of the ChaCha20 generator that `rand_chacha` builds from
/// a 64-bit number.
pub uninterp spec fn chacha_seed_of(state: u64) -> Seq<u8>;

/// Calls `ChaCha20Rng::seed_from_u64` and reads the generator's seed back with
/// `get_seed`.
///
/// Believed, not proved: the seed depends on `state` alone. The call spreads
/// the number over 32 bytes with a fixed permuted congruential generator and
/// keeps them as the generator's key, which `get_seed` returns as they are.
#[verifier::external_body]
pub(crate) fn expand_seed(state: u64) -> (seed: [u8; 32])
    ensures
        seed@ == chacha_seed_of(state),
{
    ChaCha20Rng::seed_from_u64(state).get_seed()
}

} // verus!
