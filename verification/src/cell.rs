//! The per-cell state model and the fire intensity each state radiates.

use vstd::prelude::*;

verus! {

use crate::prob::{
    PROB_EIGHTH, PROB_HALF, PROB_ONE, PROB_QUARTER, PROB_SIXTEENTH, PROB_THIRTY_SECOND,
};

/// The state of one grid cell.
///
/// `Empty` is bare ground. `Sapling`, `YoungTree` and `MatureTree` are the
/// tree growth stages, in order of increasing fuel. `Ignite` is the first
/// instant of combustion; `Flame2` through `Ember2` are the successive,
/// deterministic flame and ember intensities on the way to `Ash`; `Char`
/// is fully burnt residue.
#[derive(Clone, Copy, Debug, PartialEq, Eq, Structural)]
pub enum Cell {
    Empty,
    Sapling,
    YoungTree,
    MatureTree,
    Ignite,
    Flame2,
    Flame3,
    Flame4,
    Ember1,
    Ember2,
    Ash,
    Char,
}

/// The fire intensity a cell radiates toward its neighbors, as a Q63
/// probability weight. Burning states halve in intensity at each stage of
/// the chain; everything else radiates nothing.
pub open spec fn intensity(c: Cell) -> u64 {
    match c {
        Cell::Ignite => PROB_ONE,
        Cell::Flame2 => PROB_HALF,
        Cell::Flame3 => PROB_QUARTER,
        Cell::Flame4 => PROB_EIGHTH,
        Cell::Ember1 => PROB_SIXTEENTH,
        Cell::Ember2 => PROB_THIRTY_SECOND,
        _ => 0,
    }
}

/// Whether a cell is one of the tree growth stages (the flammable family).
pub open spec fn is_tree(c: Cell) -> bool {
    c == Cell::Sapling || c == Cell::YoungTree || c == Cell::MatureTree
}

/// Executable intensity table.
pub fn intensity_of(c: Cell) -> (r: u64)
    ensures
        r == intensity(c),
        r <= PROB_ONE,
{
    match c {
        Cell::Ignite => PROB_ONE,
        Cell::Flame2 => PROB_HALF,
        Cell::Flame3 => PROB_QUARTER,
        Cell::Flame4 => PROB_EIGHTH,
        Cell::Ember1 => PROB_SIXTEENTH,
        Cell::Ember2 => PROB_THIRTY_SECOND,
        _ => 0,
    }
}

} // verus!
