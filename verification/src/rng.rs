//! The engine's pseudorandom stream, behind trusted wrappers.
//!
//! The generator is `rand_xoshiro::Xoshiro128Plus`, a deterministic PRNG:
//! its whole output sequence is a function of the seed alone. The model of
//! a generator is therefore the pair (seed, number of draws made so far),
//! and `stream(seed, n)` names the n-th `u64` of the seed's sequence.
//!
//! The fields of `SimRng` are private and only this module touches them:
//! `seeded` is the one constructor, so a generator's real state is always
//! the seed of its model advanced by the draws of its model. The contract
//! of `next_draw` relies on exactly that correspondence.

use vstd::prelude::*;

verus! {

#[verifier::external_type_specification]
#[verifier::external_body]
pub struct ExXoshiro128Plus(rand_xoshiro::Xoshiro128Plus);

/// The n-th `u64` drawn from a `Xoshiro128Plus` generator seeded with
/// `seed` through `seed_from_u64`.
pub uninterp spec fn stream(seed: u64, n: nat) -> u64;

/// The abstract state of a simulation generator: its seed and how many
/// draws it has already handed out.
pub ghost struct RngModel {
    /// The seed the generator was built from.
    pub seed: u64,
    /// The number of draws made since construction.
    pub drawn: nat,
}

/// A seedable pseudorandom stream of `u64` draws.
pub struct SimRng {
    inner: rand_xoshiro::Xoshiro128Plus,
    model: Ghost<RngModel>,
}

impl View for SimRng {
    type V = RngModel;

    closed spec fn view(&self) -> RngModel {
        self.model@
    }
}

/// A fresh generator at the start of the given seed's stream.
///
/// Relies on `rand_xoshiro::Xoshiro128Plus::seed_from_u64`: it builds the
/// generator state deterministically from the seed (through a SplitMix64
/// expansion), so equal seeds give equal streams. The state itself is
/// opaque here; what `next_draw` hands out is pinned by its own contract.
#[verifier::external_body]
fn seed_generator(seed: u64) -> rand_xoshiro::Xoshiro128Plus {
    <rand_xoshiro::Xoshiro128Plus as rand::SeedableRng>::seed_from_u64(seed)
}

impl SimRng {
    /// A generator at the start of the given seed's stream.
    pub fn seeded(seed: u64) -> (r: SimRng)
        ensures
            r@ == (RngModel { seed, drawn: 0 }),
    {
        SimRng { inner: seed_generator(seed), model: Ghost(RngModel { seed, drawn: 0 }) }
    }

    /// The next uniform `u64` of the stream.
    ///
    /// Relies on `rand_core`'s `Rng::next_u64` for `Xoshiro128Plus`: it is
    /// infallible, and both the value returned and the new generator state
    /// are functions of the old state alone, so the value is `stream` of
    /// the seed at the current position.
    #[verifier::external_body]
    pub(crate) fn next_draw(&mut self) -> (r: u64)
        ensures
            r == stream(old(self)@.seed, old(self)@.drawn),
            final(self)@.seed == old(self)@.seed,
            final(self)@.drawn == old(self)@.drawn + 1,
    {
        <rand_xoshiro::Xoshiro128Plus as rand::Rng>::next_u64(&mut self.inner)
    }
}

} // verus!
