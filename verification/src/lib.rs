//! A forest-fire cellular automaton on a fixed rectangular grid.
//!
//! Each cell is in one of twelve states: bare ground, three tree growth
//! stages, a deterministic flame/ember chain, and two stages of burnt
//! residue. One generation advances every cell from a frozen snapshot of
//! the grid (double buffering), combining a distance-weighted neighbor
//! fire-intensity maximum with pseudorandom draws from a seedable stream.
//!
//! Probabilities are Q63 fixed-point fractions of one (`prob::PROB_ONE`
//! stands for certainty), so the whole engine is integer arithmetic.

pub mod cell;
pub mod engine;
pub mod laws;
pub mod params;
pub mod pressure;
pub mod prob;
pub mod rng;
pub mod rules;
