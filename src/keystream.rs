use rand::RngCore;
use rand::SeedableRng;
use rand_chacha::ChaCha20Rng;
use vstd::prelude::*;

verus! {

#[verifier::external_type_specification]
#[verifier::external_body]
pub struct ExChaCha20Rng(ChaCha20Rng);

/// The 64-bit seed that a generator was made from.
pub uninterp spec fn rng_seed(rng: ChaCha20Rng) -> u64;

/// How many 64-bit words have been drawn from a generator since it was seeded.
pub uninterp spec fn rng_drawn(rng: ChaCha20Rng) -> nat;

/// The word at position `index` (counting from zero) of the stream of
/// `next_u64` results of a ChaCha20 generator seeded from `seed`.
pub uninterp spec fn chacha_word(seed: u64, index: nat) -> u64;

/// Relies on `SeedableRng::seed_from_u64` for `ChaCha20Rng`: a fresh
/// generator whose stream is fixed by the seed alone, with nothing drawn yet.
#[verifier::external_body]
pub(crate) fn seeded_rng(seed: u64) -> (r: ChaCha20Rng)
    ensures
        rng_seed(r) == seed,
        rng_drawn(r) == 0,
{
    ChaCha20Rng::seed_from_u64(seed)
}

/// Relies on `RngCore::next_u64` for `ChaCha20Rng`: it hands out the next
/// word of the generator's stream and moves past it.
#[verifier::external_body]
pub(crate) fn next_word(rng: &mut ChaCha20Rng) -> (r: u64)
    ensures
        r == chacha_word(rng_seed(*old(rng)), rng_drawn(*old(rng))),
        rng_seed(*final(rng)) == rng_seed(*old(rng)),
        rng_drawn(*final(rng)) == rng_drawn(*old(rng)) + 1,
{
    rng.next_u64()
}

} // verus!
