//! The engine's random source: a seedable xoshiro256** generator, and the
//! process-wide generator that picks fresh seeds.

use rand::{Rng, SeedableRng};
use rand_xoshiro::Xoshiro256StarStar;
use vstd::prelude::*;

verus! {

#[verifier::external_type_specification]
#[verifier::external_body]
pub struct ExXoshiro256StarStar(Xoshiro256StarStar);

/// The byte that the `i`-th call (counting from zero) of `gen::<u8>` yields
/// when drawn repeatedly from `rng`: a function of the generator's state.
pub uninterp spec fn draw_at(rng: Xoshiro256StarStar, i: nat) -> u8;

/// The `i`-th byte drawn from a generator seeded by `seed_from_u64(seed)`.
pub uninterp spec fn seeded_draw(seed: u64, i: nat) -> u8;

/// Relies on rand_xoshiro's `SeedableRng::seed_from_u64` for
/// `Xoshiro256StarStar`: the state, and so every byte drawn from it, is a
/// function of the seed alone.
#[verifier::external_body]
pub(crate) fn seed_generator(seed: u64) -> (r: Xoshiro256StarStar)
    ensures
        forall|i: nat| #[trigger] draw_at(r, i) == seeded_draw(seed, i),
{
    Xoshiro256StarStar::seed_from_u64(seed)
}

/// Relies on rand's `Rng::gen::<u8>` on `Xoshiro256StarStar`: one step of the
/// generator, yielding the first of the bytes still to come and leaving the
/// rest in order.
#[verifier::external_body]
pub(crate) fn draw_byte(rng: &mut Xoshiro256StarStar) -> (r: u8)
    ensures
        r == draw_at(*old(rng), 0),
        forall|i: nat| #[trigger] draw_at(*final(rng), i) == draw_at(*old(rng), i + 1),
{
    rng.gen::<u8>()
}

/// Relies on `rand::random::<u64>`: a seed drawn from the thread-local
/// generator. Nothing is known of its value.
#[verifier::external_body]
pub(crate) fn fresh_seed() -> (r: u64) {
    rand::random::<u64>()
}

} // verus!
