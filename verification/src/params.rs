//! The tunable simulation parameters and their clamping setters.
//!
//! The three chances are Q63 probabilities (see `prob`); `step_divisor` is
//! the throttle ratio of external ticks per simulation generation. The
//! setters clamp out-of-range input silently to the nearest bound of the
//! declared slider range; construction accepts any well-formed value, so
//! that degenerate settings (a chance of zero, or of one) remain available
//! to direct callers.

use vstd::prelude::*;

verus! {

use crate::prob::PROB_ONE;

/// Lower bound of the spontaneous-growth chance range (1e-7 in Q63).
pub const GROW_MIN: u64 = 922337203685;

/// Upper bound of the spontaneous-growth chance range (1e-3 in Q63).
pub const GROW_MAX: u64 = 9223372036854776;

/// Lower bound of the lightning-strike chance range (1e-12 in Q63).
pub const STRIKE_MIN: u64 = 9223372;

/// Upper bound of the lightning-strike chance range (1e-4 in Q63).
pub const STRIKE_MAX: u64 = 922337203685478;

/// Lower bound of the spread multiplier range (0.5 in Q63).
pub const SPREAD_MIN: u64 = 4611686018427387904;

/// Upper bound of the spread multiplier range (0.999999 in Q63).
pub const SPREAD_MAX: u64 = 9223362813482738953;

/// Lower bound of the throttle divisor range.
pub const DIVISOR_MIN: u8 = 1;

/// Upper bound of the throttle divisor range.
pub const DIVISOR_MAX: u8 = 10;

/// A value clamped to the inclusive range `[lo, hi]`.
pub open spec fn clamped_u64(v: u64, lo: u64, hi: u64) -> u64 {
    if v < lo {
        lo
    } else if v > hi {
        hi
    } else {
        v
    }
}

/// A divisor clamped to the inclusive range `[lo, hi]`.
pub open spec fn clamped_u8(v: u8, lo: u8, hi: u8) -> u8 {
    if v < lo {
        lo
    } else if v > hi {
        hi
    } else {
        v
    }
}

/// The tunable parameters the transition rules read on every generation.
#[derive(Clone, Copy, Debug, PartialEq, Eq, Structural)]
pub struct Params {
    /// Per-cell, per-generation chance that bare ground sprouts a sapling.
    pub grow_chance: u64,
    /// Per-cell, per-generation chance that a tree ignites independently
    /// of its neighbors.
    pub strike_chance: u64,
    /// Global multiplier applied to neighbor-derived ignition pressure.
    pub spread_chance: u64,
    /// External ticks per simulation generation.
    pub step_divisor: u8,
}

impl Params {
    /// Well-formedness: each chance is a probability, and the divisor is
    /// within its declared range.
    pub open spec fn wf(self) -> bool {
        &&& self.grow_chance <= PROB_ONE
        &&& self.strike_chance <= PROB_ONE
        &&& self.spread_chance <= PROB_ONE
        &&& DIVISOR_MIN <= self.step_divisor <= DIVISOR_MAX
    }

    /// Parameters from raw values.
    pub fn new(grow_chance: u64, strike_chance: u64, spread_chance: u64, step_divisor: u8) -> (p:
        Params)
        requires
            grow_chance <= PROB_ONE,
            strike_chance <= PROB_ONE,
            spread_chance <= PROB_ONE,
            DIVISOR_MIN <= step_divisor <= DIVISOR_MAX,
        ensures
            p == (Params { grow_chance, strike_chance, spread_chance, step_divisor }),
            p.wf(),
    {
        Params { grow_chance, strike_chance, spread_chance, step_divisor }
    }

    /// Set the growth chance, clamped to its declared range.
    pub fn set_grow_chance(&mut self, v: u64)
        requires
            old(self).wf(),
        ensures
            final(self).wf(),
            final(self).grow_chance == clamped_u64(v, GROW_MIN, GROW_MAX),
            final(self).strike_chance == old(self).strike_chance,
            final(self).spread_chance == old(self).spread_chance,
            final(self).step_divisor == old(self).step_divisor,
    {
        self.grow_chance = clamp_u64(v, GROW_MIN, GROW_MAX);
    }

    /// Set the lightning-strike chance, clamped to its declared range.
    pub fn set_strike_chance(&mut self, v: u64)
        requires
            old(self).wf(),
        ensures
            final(self).wf(),
            final(self).strike_chance == clamped_u64(v, STRIKE_MIN, STRIKE_MAX),
            final(self).grow_chance == old(self).grow_chance,
            final(self).spread_chance == old(self).spread_chance,
            final(self).step_divisor == old(self).step_divisor,
    {
        self.strike_chance = clamp_u64(v, STRIKE_MIN, STRIKE_MAX);
    }

    /// Set the spread multiplier, clamped to its declared range.
    pub fn set_spread_chance(&mut self, v: u64)
        requires
            old(self).wf(),
        ensures
            final(self).wf(),
            final(self).spread_chance == clamped_u64(v, SPREAD_MIN, SPREAD_MAX),
            final(self).grow_chance == old(self).grow_chance,
            final(self).strike_chance == old(self).strike_chance,
            final(self).step_divisor == old(self).step_divisor,
    {
        self.spread_chance = clamp_u64(v, SPREAD_MIN, SPREAD_MAX);
    }

    /// Set the throttle divisor, clamped to its declared range.
    pub fn set_step_divisor(&mut self, v: u8)
        requires
            old(self).wf(),
        ensures
            final(self).wf(),
            final(self).step_divisor == clamped_u8(v, DIVISOR_MIN, DIVISOR_MAX),
            final(self).grow_chance == old(self).grow_chance,
            final(self).strike_chance == old(self).strike_chance,
            final(self).spread_chance == old(self).spread_chance,
    {
        self.step_divisor = if v < DIVISOR_MIN {
            DIVISOR_MIN
        } else if v > DIVISOR_MAX {
            DIVISOR_MAX
        } else {
            v
        };
    }
}

/// Executable clamp to an inclusive `u64` range.
fn clamp_u64(v: u64, lo: u64, hi: u64) -> (r: u64)
    ensures
        r == clamped_u64(v, lo, hi),
{
    if v < lo {
        lo
    } else if v > hi {
        hi
    } else {
        v
    }
}

} // verus!
