//! The library's laws: properties of the simulation, stated over the
//! specification model and proved once for all grids, parameters, seeds
//! and stream positions.

use vstd::prelude::*;

verus! {

use crate::cell::Cell;
use crate::engine::{draw_index, step_draws, step_spec};
use crate::params::Params;
use crate::pressure::{idx, pressure_at};
use crate::prob::{
    bern, lemma_bern_extremes, lemma_prob_mul_one, lemma_prob_mul_zero, INV_SQRT_2, PROB_ONE,
    PROB_QUARTER,
};
use crate::rng::stream;
use crate::rules::{cell_draws, cell_next, GROWTH_CHANCE};

/// `n` generations over `g`, the stream starting at `k0`: the grid they
/// end at, and the stream position they leave behind.
pub open spec fn run(g: Seq<Cell>, w: int, h: int, p: Params, seed: u64, k0: nat, n: nat) -> (
    Seq<Cell>,
    nat,
)
    decreases n,
{
    if n == 0 {
        (g, k0)
    } else {
        let prev = run(g, w, h, p, seed, k0, (n - 1) as nat);
        (step_spec(prev.0, w, h, p, seed, prev.1), step_draws(prev.0, w, h, p, seed, prev.1))
    }
}

/// The successor of a burning state along the deterministic decay chain;
/// any other state is left alone.
pub open spec fn chain_succ(c: Cell) -> Cell {
    match c {
        Cell::Ignite => Cell::Flame2,
        Cell::Flame2 => Cell::Flame3,
        Cell::Flame3 => Cell::Flame4,
        Cell::Flame4 => Cell::Ember1,
        Cell::Ember1 => Cell::Ember2,
        Cell::Ember2 => Cell::Ash,
        _ => c,
    }
}

/// One cell of one generation, read off the definition of `step_spec`.
proof fn lemma_step_cell(g: Seq<Cell>, w: int, h: int, p: Params, seed: u64, k0: nat, i: int)
    requires
        0 <= i < g.len(),
    ensures
        step_spec(g, w, h, p, seed, k0).len() == g.len(),
        step_spec(g, w, h, p, seed, k0)[i] == cell_next(
            g[i],
            pressure_at(g, w, h, i % w, i / w),
            p,
            seed,
            draw_index(g, w, h, p, seed, k0, i),
        ),
{
    reveal(step_spec);
}

/// A generation preserves the shape of the grid.
pub proof fn lemma_step_len(g: Seq<Cell>, w: int, h: int, p: Params, seed: u64, k0: nat)
    ensures
        step_spec(g, w, h, p, seed, k0).len() == g.len(),
{
    reveal(step_spec);
}

/// One generation advances a burning cell one stage along the chain,
/// whatever the pressure on it, the parameters, and the draws.
proof fn lemma_chain_one(g: Seq<Cell>, w: int, h: int, p: Params, seed: u64, k0: nat, i: int)
    requires
        0 <= i < g.len(),
        g[i] == Cell::Ignite || g[i] == Cell::Flame2 || g[i] == Cell::Flame3 || g[i]
            == Cell::Flame4 || g[i] == Cell::Ember1 || g[i] == Cell::Ember2,
    ensures
        step_spec(g, w, h, p, seed, k0).len() == g.len(),
        step_spec(g, w, h, p, seed, k0)[i] == chain_succ(g[i]),
{
    lemma_step_cell(g, w, h, p, seed, k0, i);
}

/// Decay determinism: whatever the parameters, the seed, the stream
/// position and the rest of the grid, a cell that has just ignited passes
/// through the flame and ember stages one per generation and is ash after
/// exactly six generations — neither sooner nor later.
#[verifier::rlimit(100)]
pub proof fn lemma_decay_chain(g: Seq<Cell>, w: int, h: int, p: Params, seed: u64, k0: nat, i: int)
    requires
        0 <= i < g.len(),
        g[i] == Cell::Ignite,
    ensures
        run(g, w, h, p, seed, k0, 1).0[i] == Cell::Flame2,
        run(g, w, h, p, seed, k0, 2).0[i] == Cell::Flame3,
        run(g, w, h, p, seed, k0, 3).0[i] == Cell::Flame4,
        run(g, w, h, p, seed, k0, 4).0[i] == Cell::Ember1,
        run(g, w, h, p, seed, k0, 5).0[i] == Cell::Ember2,
        run(g, w, h, p, seed, k0, 6).0[i] == Cell::Ash,
{
    assert(run(g, w, h, p, seed, k0, 0) == (g, k0));
    let r1 = run(g, w, h, p, seed, k0, 1);
    let r2 = run(g, w, h, p, seed, k0, 2);
    let r3 = run(g, w, h, p, seed, k0, 3);
    let r4 = run(g, w, h, p, seed, k0, 4);
    let r5 = run(g, w, h, p, seed, k0, 5);
    let r6 = run(g, w, h, p, seed, k0, 6);
    lemma_chain_one(g, w, h, p, seed, k0, i);
    assert(r1.0[i] == Cell::Flame2);
    lemma_chain_one(r1.0, w, h, p, seed, r1.1, i);
    assert(r2.0[i] == Cell::Flame3);
    lemma_chain_one(r2.0, w, h, p, seed, r2.1, i);
    assert(r3.0[i] == Cell::Flame4);
    lemma_chain_one(r3.0, w, h, p, seed, r3.1, i);
    assert(r4.0[i] == Cell::Ember1);
    lemma_chain_one(r4.0, w, h, p, seed, r4.1, i);
    assert(r5.0[i] == Cell::Ember2);
    lemma_chain_one(r5.0, w, h, p, seed, r5.1, i);
    assert(r6.0[i] == Cell::Ash);
}

/// Bare ground stays bare when nothing can sprout, whatever the pressure
/// on it and whatever the draw.
proof fn lemma_empty_cell_next(pr: u64, p: Params, seed: u64, k: nat)
    requires
        p.grow_chance == 0,
    ensures
        cell_next(Cell::Empty, pr, p, seed, k) == Cell::Empty,
{
    lemma_bern_extremes(stream(seed, k));
}

/// Bare-ground stability: with the growth chance at zero, a grid of bare
/// ground stays bare ground for any number of generations.
pub proof fn lemma_empty_stable(
    g: Seq<Cell>,
    w: int,
    h: int,
    p: Params,
    seed: u64,
    k0: nat,
    n: nat,
)
    requires
        p.grow_chance == 0,
        forall|j: int| 0 <= j < g.len() ==> g[j] == Cell::Empty,
    ensures
        run(g, w, h, p, seed, k0, n).0.len() == g.len(),
        forall|j: int| 0 <= j < g.len() ==> run(g, w, h, p, seed, k0, n).0[j] == Cell::Empty,
    decreases n,
{
    if n > 0 {
        lemma_empty_stable(g, w, h, p, seed, k0, (n - 1) as nat);
        let prev = run(g, w, h, p, seed, k0, (n - 1) as nat);
        let cur = run(g, w, h, p, seed, k0, n);
        assert(cur.0 == step_spec(prev.0, w, h, p, seed, prev.1));
        lemma_step_len(prev.0, w, h, p, seed, prev.1);
        assert forall|j: int| 0 <= j < g.len() implies cur.0[j] == Cell::Empty by {
            lemma_step_cell(prev.0, w, h, p, seed, prev.1, j);
            lemma_empty_cell_next(
                pressure_at(prev.0, w, h, j % w, j / w),
                p,
                seed,
                draw_index(prev.0, w, h, p, seed, prev.1, j),
            );
        }
    }
}

/// Geometric growth: under zero neighbor pressure and a zero strike
/// chance, a sapling is promoted to a young tree exactly when its growth
/// draw succeeds, and the growth threshold is exactly one quarter of the
/// draw space. The two ignition trials before it cannot fire, but still
/// consume their draws.
pub proof fn lemma_sapling_growth(p: Params, seed: u64, k: nat)
    requires
        p.strike_chance == 0,
    ensures
        4 * GROWTH_CHANCE == PROB_ONE,
        cell_next(Cell::Sapling, 0, p, seed, k) == (if bern(stream(seed, k + 2), GROWTH_CHANCE) {
            Cell::YoungTree
        } else {
            Cell::Sapling
        }),
        cell_draws(Cell::Sapling, 0, p, seed, k) == 3,
{
    lemma_prob_mul_zero(PROB_QUARTER);
    lemma_prob_mul_zero(p.spread_chance);
    lemma_bern_extremes(stream(seed, k));
    lemma_bern_extremes(stream(seed, k + 1));
}

/// Neighbor weighting, orthogonal: a cell whose only non-empty neighbor
/// on the grid is a single orthogonally adjacent igniting cell is under
/// ignition pressure exactly one.
pub proof fn lemma_orthogonal_ignite_pressure(
    g: Seq<Cell>,
    w: int,
    h: int,
    x: int,
    y: int,
    nx: int,
    ny: int,
)
    requires
        g.len() == w * h,
        0 <= x < w,
        0 <= y < h,
        0 <= nx < w,
        0 <= ny < h,
        (nx == x && (ny == y - 1 || ny == y + 1)) || (ny == y && (nx == x - 1 || nx == x + 1)),
        g[idx(w, nx, ny)] == Cell::Ignite,
        0 <= x - 1 && !(nx == x - 1 && ny == y) ==> g[idx(w, x - 1, y)] == Cell::Empty,
        x + 1 < w && !(nx == x + 1 && ny == y) ==> g[idx(w, x + 1, y)] == Cell::Empty,
        0 <= y - 1 && !(nx == x && ny == y - 1) ==> g[idx(w, x, y - 1)] == Cell::Empty,
        y + 1 < h && !(nx == x && ny == y + 1) ==> g[idx(w, x, y + 1)] == Cell::Empty,
        0 <= x - 1 && 0 <= y - 1 && !(nx == x - 1 && ny == y - 1) ==> g[idx(w, x - 1, y - 1)]
            == Cell::Empty,
        x + 1 < w && 0 <= y - 1 && !(nx == x + 1 && ny == y - 1) ==> g[idx(w, x + 1, y - 1)]
            == Cell::Empty,
        0 <= x - 1 && y + 1 < h && !(nx == x - 1 && ny == y + 1) ==> g[idx(w, x - 1, y + 1)]
            == Cell::Empty,
        x + 1 < w && y + 1 < h && !(nx == x + 1 && ny == y + 1) ==> g[idx(w, x + 1, y + 1)]
            == Cell::Empty,
    ensures
        pressure_at(g, w, h, x, y) == PROB_ONE,
{
    lemma_prob_mul_zero(INV_SQRT_2);
    lemma_prob_mul_one(INV_SQRT_2);
}

/// Neighbor weighting, diagonal: a cell whose only non-empty neighbor on
/// the grid is a single diagonally adjacent igniting cell is under
/// ignition pressure exactly the 1/sqrt(2) attenuation weight.
pub proof fn lemma_diagonal_ignite_pressure(
    g: Seq<Cell>,
    w: int,
    h: int,
    x: int,
    y: int,
    nx: int,
    ny: int,
)
    requires
        g.len() == w * h,
        0 <= x < w,
        0 <= y < h,
        0 <= nx < w,
        0 <= ny < h,
        (nx == x - 1 || nx == x + 1) && (ny == y - 1 || ny == y + 1),
        g[idx(w, nx, ny)] == Cell::Ignite,
        0 <= x - 1 && !(nx == x - 1 && ny == y) ==> g[idx(w, x - 1, y)] == Cell::Empty,
        x + 1 < w && !(nx == x + 1 && ny == y) ==> g[idx(w, x + 1, y)] == Cell::Empty,
        0 <= y - 1 && !(nx == x && ny == y - 1) ==> g[idx(w, x, y - 1)] == Cell::Empty,
        y + 1 < h && !(nx == x && ny == y + 1) ==> g[idx(w, x, y + 1)] == Cell::Empty,
        0 <= x - 1 && 0 <= y - 1 && !(nx == x - 1 && ny == y - 1) ==> g[idx(w, x - 1, y - 1)]
            == Cell::Empty,
        x + 1 < w && 0 <= y - 1 && !(nx == x + 1 && ny == y - 1) ==> g[idx(w, x + 1, y - 1)]
            == Cell::Empty,
        0 <= x - 1 && y + 1 < h && !(nx == x - 1 && ny == y + 1) ==> g[idx(w, x - 1, y + 1)]
            == Cell::Empty,
        x + 1 < w && y + 1 < h && !(nx == x + 1 && ny == y + 1) ==> g[idx(w, x + 1, y + 1)]
            == Cell::Empty,
    ensures
        pressure_at(g, w, h, x, y) == INV_SQRT_2,
{
    lemma_prob_mul_zero(INV_SQRT_2);
    lemma_prob_mul_one(INV_SQRT_2);
}

/// Hard boundaries in the extreme: a cell alone on the grid has no
/// neighbors at all, so it is under no pressure.
pub proof fn lemma_lone_cell_pressure(g: Seq<Cell>)
    requires
        g.len() == 1,
    ensures
        pressure_at(g, 1, 1, 0, 0) == 0,
{
}

/// Buffer atomicity: the grid after a generation, and the stream position
/// it leaves behind, are functions of the pre-step grid and stream
/// position alone, so two engines in equal states step to equal states.
pub proof fn lemma_step_reproducible(
    g1: Seq<Cell>,
    g2: Seq<Cell>,
    w: int,
    h: int,
    p: Params,
    seed: u64,
    k0: nat,
)
    requires
        g1 == g2,
    ensures
        step_spec(g1, w, h, p, seed, k0) == step_spec(g2, w, h, p, seed, k0),
        step_draws(g1, w, h, p, seed, k0) == step_draws(g2, w, h, p, seed, k0),
{
}

/// Certain ignition: with the spread multiplier at one and ignition
/// pressure one, a mature tree catches fire on the very first trial,
/// whatever the seed and stream position.
pub proof fn lemma_certain_ignition(p: Params, seed: u64, k: nat)
    requires
        p.spread_chance == PROB_ONE,
    ensures
        cell_next(Cell::MatureTree, PROB_ONE, p, seed, k) == Cell::Ignite,
        cell_draws(Cell::MatureTree, PROB_ONE, p, seed, k) == 1,
{
    lemma_prob_mul_one(PROB_ONE);
    lemma_bern_extremes(stream(seed, k));
}

/// The ignition scenario in the small: on a one-row, two-cell grid
/// holding a mature tree beside an igniting cell, with the spread
/// multiplier at one, the tree has caught fire after one generation,
/// whatever the seed.
pub proof fn lemma_ignition_pair(g: Seq<Cell>, p: Params, seed: u64, k0: nat)
    requires
        g.len() == 2,
        g[0] == Cell::MatureTree,
        g[1] == Cell::Ignite,
        p.spread_chance == PROB_ONE,
    ensures
        step_spec(g, 2, 1, p, seed, k0)[0] == Cell::Ignite,
{
    lemma_step_cell(g, 2, 1, p, seed, k0, 0);
    lemma_orthogonal_ignite_pressure(g, 2, 1, 0, 0, 1, 0);
    lemma_certain_ignition(p, seed, draw_index(g, 2, 1, p, seed, k0, 0));
}

/// Whether a cell is one of the burning stages of the decay chain.
pub open spec fn burning(c: Cell) -> bool {
    c == Cell::Ignite || c == Cell::Flame2 || c == Cell::Flame3 || c == Cell::Flame4 || c
        == Cell::Ember1 || c == Cell::Ember2
}

/// One generation over a grid whose only non-empty cell is burning, with
/// growth off: the burning cell advances one chain stage and every other
/// cell stays bare.
proof fn lemma_lone_fire_step(g: Seq<Cell>, w: int, h: int, p: Params, seed: u64, k0: nat, i: int)
    requires
        p.grow_chance == 0,
        0 <= i < g.len(),
        burning(g[i]),
        forall|j: int| 0 <= j < g.len() && j != i ==> g[j] == Cell::Empty,
    ensures
        step_spec(g, w, h, p, seed, k0).len() == g.len(),
        step_spec(g, w, h, p, seed, k0)[i] == chain_succ(g[i]),
        forall|j: int|
            0 <= j < g.len() && j != i ==> step_spec(g, w, h, p, seed, k0)[j] == Cell::Empty,
{
    lemma_chain_one(g, w, h, p, seed, k0, i);
    assert forall|j: int|
        0 <= j < g.len() && j != i implies step_spec(g, w, h, p, seed, k0)[j]
        == Cell::Empty by {
        lemma_step_cell(g, w, h, p, seed, k0, j);
        lemma_empty_cell_next(
            pressure_at(g, w, h, j % w, j / w),
            p,
            seed,
            draw_index(g, w, h, p, seed, k0, j),
        );
    }
}

/// The end-to-end scenario: on any grid whose only non-empty cell has
/// just ignited, with growth off, the fire burns down in place — after
/// six generations exactly that cell is ash and every other cell is still
/// bare, whatever the seed, the spread multiplier and the strike chance.
pub proof fn lemma_lone_ignite_scenario(
    g: Seq<Cell>,
    w: int,
    h: int,
    p: Params,
    seed: u64,
    k0: nat,
    i: int,
)
    requires
        p.grow_chance == 0,
        0 <= i < g.len(),
        g[i] == Cell::Ignite,
        forall|j: int| 0 <= j < g.len() && j != i ==> g[j] == Cell::Empty,
    ensures
        run(g, w, h, p, seed, k0, 6).0.len() == g.len(),
        run(g, w, h, p, seed, k0, 6).0[i] == Cell::Ash,
        forall|j: int|
            0 <= j < g.len() && j != i ==> run(g, w, h, p, seed, k0, 6).0[j] == Cell::Empty,
{
    assert(run(g, w, h, p, seed, k0, 0) == (g, k0));
    let r1 = run(g, w, h, p, seed, k0, 1);
    let r2 = run(g, w, h, p, seed, k0, 2);
    let r3 = run(g, w, h, p, seed, k0, 3);
    let r4 = run(g, w, h, p, seed, k0, 4);
    let r5 = run(g, w, h, p, seed, k0, 5);
    let r6 = run(g, w, h, p, seed, k0, 6);
    lemma_lone_fire_step(g, w, h, p, seed, k0, i);
    lemma_lone_fire_step(r1.0, w, h, p, seed, r1.1, i);
    lemma_lone_fire_step(r2.0, w, h, p, seed, r2.1, i);
    lemma_lone_fire_step(r3.0, w, h, p, seed, r3.1, i);
    lemma_lone_fire_step(r4.0, w, h, p, seed, r4.1, i);
    lemma_lone_fire_step(r5.0, w, h, p, seed, r5.1, i);
}

} // verus!

