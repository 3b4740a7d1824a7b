//! The random number generator behind the autonomous snakes and the stand-in
//! food source. Nothing here is proved: each function hands one call to the
//! `rand` crate and states what that crate documents of the result.

use rand::distr::Uniform;
use rand::rngs::StdRng;
use rand::seq::IndexedRandom;
use rand::Rng;
use rand::SeedableRng;
use vstd::prelude::*;

verus! {

/// `rand::rngs::StdRng`, carried through as an opaque value.
#[verifier::external_type_specification]
#[verifier::external_body]
pub struct ExStdRng(rand::rngs::StdRng);

/// `Rng::sample` on `Uniform::new_inclusive(low, high)`: a draw from the closed
/// range. The contract claims only that the draw lies in the range; which
/// value comes is up to the generator.
#[verifier::external_body]
pub(crate) fn sample_inclusive(rng: &mut StdRng, low: u8, high: u8) -> (draw: u8)
    requires
        low <= high,
    ensures
        low <= draw <= high,
{
    rng.sample(Uniform::new_inclusive(low, high).unwrap())
}

/// `IndexedRandom::choose` on a slice: one of the items, or nothing when there
/// is none to pick from.
#[verifier::external_body]
pub(crate) fn choose_one(rng: &mut StdRng, items: &Vec<u32>) -> (pick: Option<u32>)
    ensures
        match pick {
            Some(value) => items@.contains(value),
            None => items@.len() == 0,
        },
{
    items.choose(rng).copied()
}

/// `SeedableRng::try_from_os_rng`: a generator seeded by the operating
/// system, or nothing when the system gives no entropy.
#[verifier::external_body]
pub(crate) fn os_seeded() -> Option<StdRng> {
    StdRng::try_from_os_rng().ok()
}

/// `SeedableRng::seed_from_u64`: a generator that is a function of the seed.
#[verifier::external_body]
pub(crate) fn seeded(seed: u64) -> StdRng {
    StdRng::seed_from_u64(seed)
}

} // verus!
