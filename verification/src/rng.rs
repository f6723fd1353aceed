use vstd::prelude::*;
use rand::{Rng, RngCore, SeedableRng};
use rand_chacha::ChaCha8Rng;

verus! {

/// The byte that one invocation of the machine's random-number source yields
/// when its seed register holds `seed`. The value is a pure function of the
/// seed: `ChaCha8Rng::seed_from_u64` derives the cipher key from the seed
/// alone, and the stream drawn from it depends on nothing else.
pub uninterp spec fn chacha_byte(seed: u64) -> u8;

/// The value the machine's seed register holds after one invocation of the
/// random-number source that started from `seed`; a pure function of `seed`
/// for the same reason as `chacha_byte`.
pub uninterp spec fn chacha_next_seed(seed: u64) -> u64;

/// Relies on rand_chacha's `ChaCha8Rng` together with rand_core's
/// `SeedableRng::seed_from_u64` and rand's `Rng::gen::<u8>`: seeding is a
/// deterministic expansion of the 64-bit seed, `next_u64` and `gen` draw the
/// next words of the keystream, so both results are functions of `seed`
/// alone. The second word drawn becomes the output byte, the first the next
/// seed, in the order the calls are made here.
#[verifier::external_body]
pub fn chacha_step(seed: u64) -> (r: (u8, u64))
    ensures
        r.0 == chacha_byte(seed),
        r.1 == chacha_next_seed(seed),
{
    let mut rng = ChaCha8Rng::seed_from_u64(seed);
    let next_seed = rng.next_u64();
    (rng.gen(), next_seed)
}

/// Relies on rand's `thread_rng` and rand_core's `RngCore::next_u64` for an
/// arbitrary starting seed. Nothing is promised of the value: every caller
/// must hold for every outcome.
#[verifier::external_body]
pub fn fresh_seed() -> u64 {
    rand::thread_rng().next_u64()
}

} // verus!
