use rand_xoshiro::rand_core::{RngCore, SeedableRng};
use rand_xoshiro::Xoshiro256StarStar;
use vstd::prelude::*;

verus! {

/// The first `n` outputs of `next_u32` of a Xoshiro256** generator created by
/// `seed_from_u64(seed)`.
pub uninterp spec fn xoshiro_words(seed: u64, n: nat) -> Seq<u32>;

/// Relies on rand_xoshiro's `Xoshiro256StarStar::seed_from_u64` and
/// `RngCore::next_u32`: the `n` first outputs of the generator seeded with
/// `seed`, a function of `seed` and `n` alone.
#[verifier::external_body]
fn xoshiro_stream(seed: u64, n: usize) -> (r: Vec<u32>)
    ensures
        r@ == xoshiro_words(seed, n as nat),
        r@.len() == n,
{
    let mut generator = Xoshiro256StarStar::seed_from_u64(seed);
    (0..n).map(|_| generator.next_u32()).collect()
}

/// Bitwise exclusive or of all `parts` (0 for none).
pub open spec fn xor_all(parts: Seq<u64>) -> u64
    decreases parts.len(),
{
    if parts.len() == 0 {
        0
    } else {
        xor_all(parts.drop_last()) ^ parts.last()
    }
}

/// `count` pseudo-random words for a seed given in parts (one per coordinate of
/// the hashed point): the parts are combined by exclusive or, and the words are
/// the first outputs of the Xoshiro256** generator seeded with the result.
pub fn random_words(seed_parts: &[u64], count: usize) -> (r: Vec<u32>)
    ensures
        r@ == xoshiro_words(xor_all(seed_parts@), count as nat),
        r@.len() == count,
{
    let mut seed: u64 = 0;
    let mut i: usize = 0;
    while i < seed_parts.len()
        invariant
            i <= seed_parts@.len(),
            seed == xor_all(seed_parts@.subrange(0, i as int)),
        decreases seed_parts@.len() - i,
    {
        assert(seed_parts@.subrange(0, i as int + 1).drop_last() =~= seed_parts@.subrange(
            0,
            i as int,
        ));
        seed = seed ^ seed_parts[i];
        i = i + 1;
    }
    assert(seed_parts@.subrange(0, seed_parts@.len() as int) =~= seed_parts@);
    xoshiro_stream(seed, count)
}

} // verus!
