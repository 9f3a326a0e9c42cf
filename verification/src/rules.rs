//! The per-cell transition rules.
//!
//! The next state of a cell is a pure function of its current state, the
//! neighbor ignition pressure on it, the tunable parameters, and the draws
//! the seed's stream holds from the cell's position onward. A tree-family
//! cell first tries neighbor ignition (pressure scaled by its own fuel
//! load and by the spread multiplier), then lightning, then growth; the
//! flame/ember chain advances deterministically one stage per generation;
//! ash and char crumble with a fixed chance; bare ground sprouts with the
//! growth chance.

use vstd::prelude::*;

verus! {

use crate::cell::{is_tree, Cell};
use crate::params::Params;
use crate::prob::{bern, bernoulli, prob_mul, prob_mul_exec, PROB_HALF, PROB_ONE, PROB_QUARTER};
use crate::rng::{stream, SimRng};

/// Chance per generation that a sapling or young tree advances one growth
/// stage, once ignition and lightning have passed it by.
pub const GROWTH_CHANCE: u64 = PROB_QUARTER;

/// Chance per generation that ash crumbles to char, and char to bare
/// ground.
pub const DECAY_CHANCE: u64 = PROB_QUARTER;

/// The neighbor pressure scaled by the cell's own fuel load: unmodified
/// for a mature tree, halved for a young tree, quartered for a sapling.
pub open spec fn fuel_scaled(c: Cell, pr: u64) -> u64 {
    if c == Cell::YoungTree {
        prob_mul(pr, PROB_HALF)
    } else if c == Cell::Sapling {
        prob_mul(pr, PROB_QUARTER)
    } else {
        pr
    }
}

/// The chance that a tree-family cell catches fire from its neighbors
/// this generation.
pub open spec fn ignite_chance(c: Cell, pr: u64, p: Params) -> u64 {
    prob_mul(p.spread_chance, fuel_scaled(c, pr))
}

/// The next state of a cell whose current state is `c`, under neighbor
/// pressure `pr` and parameters `p`, fed by the draws of `seed`'s stream
/// from position `k` onward.
pub open spec fn cell_next(c: Cell, pr: u64, p: Params, seed: u64, k: nat) -> Cell {
    if is_tree(c) {
        if bern(stream(seed, k), ignite_chance(c, pr, p)) {
            Cell::Ignite
        } else if bern(stream(seed, k + 1), p.strike_chance) {
            Cell::Ignite
        } else if c == Cell::YoungTree && bern(stream(seed, k + 2), GROWTH_CHANCE) {
            Cell::MatureTree
        } else if c == Cell::Sapling && bern(stream(seed, k + 2), GROWTH_CHANCE) {
            Cell::YoungTree
        } else {
            c
        }
    } else {
        match c {
            Cell::Ignite => Cell::Flame2,
            Cell::Flame2 => Cell::Flame3,
            Cell::Flame3 => Cell::Flame4,
            Cell::Flame4 => Cell::Ember1,
            Cell::Ember1 => Cell::Ember2,
            Cell::Ember2 => Cell::Ash,
            Cell::Ash => if bern(stream(seed, k), DECAY_CHANCE) {
                Cell::Char
            } else {
                Cell::Ash
            },
            Cell::Char => if bern(stream(seed, k), DECAY_CHANCE) {
                Cell::Empty
            } else {
                Cell::Char
            },
            Cell::Empty => if bern(stream(seed, k), p.grow_chance) {
                Cell::Sapling
            } else {
                Cell::Empty
            },
            _ => c,
        }
    }
}

/// How many draws the transition of this cell consumes: one for the
/// neighbor-ignition trial; where that fails, one more for the lightning
/// trial; where both fail and the cell can still grow, one more for the
/// growth trial. The flame/ember chain consumes none; ash, char and bare
/// ground consume one each.
pub open spec fn cell_draws(c: Cell, pr: u64, p: Params, seed: u64, k: nat) -> nat {
    if is_tree(c) {
        if bern(stream(seed, k), ignite_chance(c, pr, p)) {
            1
        } else if bern(stream(seed, k + 1), p.strike_chance) {
            2
        } else if c == Cell::MatureTree {
            2
        } else {
            3
        }
    } else {
        match c {
            Cell::Ash | Cell::Char | Cell::Empty => 1,
            _ => 0,
        }
    }
}

/// Advance one cell, drawing from the engine's stream as the rules
/// require.
pub fn transition(c: Cell, pr: u64, p: &Params, rng: &mut SimRng) -> (r: Cell)
    requires
        p.wf(),
        pr <= PROB_ONE,
    ensures
        r == cell_next(c, pr, *p, old(rng)@.seed, old(rng)@.drawn),
        final(rng)@.seed == old(rng)@.seed,
        final(rng)@.drawn == old(rng)@.drawn + cell_draws(c, pr, *p, old(rng)@.seed, old(
            rng,
        )@.drawn),
{
    match c {
        Cell::Sapling | Cell::YoungTree | Cell::MatureTree => {
            let scaled = match c {
                Cell::YoungTree => prob_mul_exec(pr, PROB_HALF),
                Cell::Sapling => prob_mul_exec(pr, PROB_QUARTER),
                _ => pr,
            };
            let chance = prob_mul_exec(p.spread_chance, scaled);
            let d1 = rng.next_draw();
            if bernoulli(d1, chance) {
                Cell::Ignite
            } else {
                let d2 = rng.next_draw();
                if bernoulli(d2, p.strike_chance) {
                    Cell::Ignite
                } else {
                    match c {
                        Cell::YoungTree => {
                            let d3 = rng.next_draw();
                            if bernoulli(d3, GROWTH_CHANCE) {
                                Cell::MatureTree
                            } else {
                                Cell::YoungTree
                            }
                        },
                        Cell::Sapling => {
                            let d3 = rng.next_draw();
                            if bernoulli(d3, GROWTH_CHANCE) {
                                Cell::YoungTree
                            } else {
                                Cell::Sapling
                            }
                        },
                        _ => Cell::MatureTree,
                    }
                }
            }
        },
        Cell::Ignite => Cell::Flame2,
        Cell::Flame2 => Cell::Flame3,
        Cell::Flame3 => Cell::Flame4,
        Cell::Flame4 => Cell::Ember1,
        Cell::Ember1 => Cell::Ember2,
        Cell::Ember2 => Cell::Ash,
        Cell::Ash => {
            let d = rng.next_draw();
            if bernoulli(d, DECAY_CHANCE) {
                Cell::Char
            } else {
                Cell::Ash
            }
        },
        Cell::Char => {
            let d = rng.next_draw();
            if bernoulli(d, DECAY_CHANCE) {
                Cell::Empty
            } else {
                Cell::Char
            }
        },
        Cell::Empty => {
            let d = rng.next_draw();
            if bernoulli(d, p.grow_chance) {
                Cell::Sapling
            } else {
                Cell::Empty
            }
        },
    }
}

} // verus!
