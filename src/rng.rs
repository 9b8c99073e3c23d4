//! The seeded pseudo-random generator that deals new cards.

use rand::{Rng, SeedableRng, StdRng};
use vstd::prelude::*;

verus! {

#[verifier::external_type_specification]
#[verifier::external_body]
pub struct ExStdRng(rand::StdRng);

/// Relies on rand's `SeedableRng::from_seed` for `StdRng`: a generator whose
/// stream is fixed by the one-word seed.
#[verifier::external_body]
pub(crate) fn seeded(seed: usize) -> (r: StdRng) {
    let words: &[usize] = &[seed];
    StdRng::from_seed(words)
}

/// Relies on rand's `Rng::gen_range`: a value in `[low, high)`; it panics
/// only when `low >= high`, which `requires` leaves out.
#[verifier::external_body]
pub(crate) fn random_in(rng: &mut StdRng, low: u8, high: u8) -> (r: u8)
    requires
        low < high,
    ensures
        low <= r < high,
{
    rng.gen_range(low, high)
}

/// Relies on rand's `Rng::gen` for `u8`: any byte.
#[verifier::external_body]
pub(crate) fn random_byte(rng: &mut StdRng) -> (r: u8) {
    rng.gen::<u8>()
}

} // verus!
