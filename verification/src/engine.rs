//! The simulation engine: the double-buffered grid store, the generation
//! driver, the throttle, and the parameter surface.
//!
//! A generation (`step`) computes every cell's next state from the frozen
//! current buffer into the scratch buffer, then exchanges the two in O(1).
//! No cell's update ever observes another cell's already-written next
//! state, and the post-step grid is a pure function of the pre-step grid
//! and the position of the pseudorandom stream: that function is
//! `step_spec`.

use vstd::prelude::*;

verus! {

use vstd::arithmetic::div_mod::{lemma_fundamental_div_mod, lemma_multiply_divide_lt};
use crate::cell::Cell;
use crate::params::{
    clamped_u64, clamped_u8, Params, DIVISOR_MAX, DIVISOR_MIN, GROW_MAX, GROW_MIN, SPREAD_MAX,
    SPREAD_MIN, STRIKE_MAX, STRIKE_MIN,
};
use crate::pressure::{idx, pressure, pressure_at};
use crate::rng::SimRng;
use crate::rules::{cell_draws, cell_next, transition};

/// Why construction from operating-system entropy can fail.
#[derive(Clone, Copy, Debug, PartialEq, Eq, Structural)]
pub enum InitError {
    /// The operating system handed out no entropy.
    EntropyUnavailable,
}

/// One `u64` from the operating system's entropy source.
///
/// Relies on `rand::rngs::SysRng` (getrandom's `SysRng`), whose
/// `try_next_u64` asks the operating system for random bytes. The value is
/// nondeterministic, so nothing is promised of it; a failure of the source
/// is mapped to the library's own error.
#[verifier::external_body]
fn entropy_seed() -> Result<u64, InitError> {
    match rand::TryRng::try_next_u64(&mut rand::rngs::SysRng) {
        Ok(v) => Ok(v),
        Err(_) => Err(InitError::EntropyUnavailable),
    }
}

/// The abstract state of an engine: the grid and its shape, the tunables,
/// the pseudorandom stream's seed and position, and the throttle counter.
pub ghost struct EngineModel {
    /// Grid width in cells.
    pub width: nat,
    /// Grid height in cells.
    pub height: nat,
    /// The current generation, row-major.
    pub grid: Seq<Cell>,
    /// The tunable parameters.
    pub params: Params,
    /// The seed of the engine's pseudorandom stream.
    pub seed: u64,
    /// How many draws of the stream have been consumed.
    pub drawn: nat,
    /// External ticks seen since the last generation.
    pub counter: nat,
}

/// The position of the pseudorandom stream after the cells of `g` before
/// cell `i` have been advanced, the stream standing at `k0` when the pass
/// began. Each cell consumes the draws its own transition calls for, in
/// row-major scan order.
pub open spec fn draw_index(
    g: Seq<Cell>,
    w: int,
    h: int,
    p: Params,
    seed: u64,
    k0: nat,
    i: int,
) -> nat
    decreases i,
{
    if i <= 0 {
        k0
    } else {
        let k = draw_index(g, w, h, p, seed, k0, i - 1);
        k + cell_draws(g[i - 1], pressure_at(g, w, h, (i - 1) % w, (i - 1) / w), p, seed, k)
    }
}

/// One full generation: every cell of `g` advanced by the transition
/// rules, each reading the frozen pre-step grid and its own stretch of the
/// pseudorandom stream.
#[verifier::opaque]
pub open spec fn step_spec(g: Seq<Cell>, w: int, h: int, p: Params, seed: u64, k0: nat) -> Seq<
    Cell,
> {
    Seq::new(
        g.len(),
        |i: int|
            cell_next(
                g[i],
                pressure_at(g, w, h, i % w, i / w),
                p,
                seed,
                draw_index(g, w, h, p, seed, k0, i),
            ),
    )
}

/// Where the pseudorandom stream stands after one full generation over `g`
/// that began with the stream at `k0`.
pub open spec fn step_draws(g: Seq<Cell>, w: int, h: int, p: Params, seed: u64, k0: nat) -> nat {
    draw_index(g, w, h, p, seed, k0, g.len() as int)
}

/// The simulation engine.
pub struct Engine {
    width: usize,
    height: usize,
    cells: Vec<Cell>,
    scratch: Vec<Cell>,
    params: Params,
    counter: u8,
    rng: SimRng,
}

impl View for Engine {
    type V = EngineModel;

    closed spec fn view(&self) -> EngineModel {
        EngineModel {
            width: self.width as nat,
            height: self.height as nat,
            grid: self.cells@,
            params: self.params,
            seed: self.rng@.seed,
            drawn: self.rng@.drawn,
            counter: self.counter as nat,
        }
    }
}

/// A grid buffer of `n` cells, all bare ground.
fn empty_cells(n: usize) -> (v: Vec<Cell>)
    ensures
        v@.len() == n,
        forall|j: int| 0 <= j < n ==> v@[j] == Cell::Empty,
{
    let mut v: Vec<Cell> = Vec::new();
    let mut i: usize = 0;
    while i < n
        invariant
            i <= n,
            v@.len() == i,
            forall|j: int| 0 <= j < i ==> v@[j] == Cell::Empty,
        decreases n - i,
    {
        v.push(Cell::Empty);
        i = i + 1;
    }
    v
}

impl Engine {
    /// Well-formedness: both buffers span the grid, the parameters are in
    /// range, and the throttle counter is bounded.
    pub closed spec fn wf(self) -> bool {
        &&& self.cells@.len() == (self.width as int) * (self.height as int)
        &&& self.scratch@.len() == self.cells@.len()
        &&& self.params.wf()
        &&& self.counter < 10
    }

    /// A fresh engine: an all-Empty grid of the given shape, a pseudorandom
    /// stream at the start of the given seed's sequence, and the throttle
    /// counter at zero.
    pub fn new(width: usize, height: usize, seed: u64, params: Params) -> (e: Engine)
        requires
            params.wf(),
            (width as int) * (height as int) <= usize::MAX,
        ensures
            e.wf(),
            e@.width == width,
            e@.height == height,
            e@.grid.len() == (width as int) * (height as int),
            forall|j: int| 0 <= j < e@.grid.len() ==> e@.grid[j] == Cell::Empty,
            e@.params == params,
            e@.seed == seed,
            e@.drawn == 0,
            e@.counter == 0,
    {
        let n = width * height;
        let cells = empty_cells(n);
        let scratch = empty_cells(n);
        Engine { width, height, cells, scratch, params, counter: 0, rng: SimRng::seeded(seed) }
    }

    /// A fresh engine seeded from the operating system's entropy source;
    /// construction fails, rather than falling back to a fixed seed, where
    /// the source is unavailable.
    pub fn from_entropy(width: usize, height: usize, params: Params) -> (r: Result<
        Engine,
        InitError,
    >)
        requires
            params.wf(),
            (width as int) * (height as int) <= usize::MAX,
        ensures
            r matches Ok(e) ==> {
                &&& e.wf()
                &&& e@.width == width
                &&& e@.height == height
                &&& e@.grid.len() == (width as int) * (height as int)
                &&& (forall|j: int| 0 <= j < e@.grid.len() ==> e@.grid[j] == Cell::Empty)
                &&& e@.params == params
                &&& e@.drawn == 0
                &&& e@.counter == 0
            },
            r matches Err(er) ==> er == InitError::EntropyUnavailable,
    {
        match entropy_seed() {
            Ok(seed) => Ok(Engine::new(width, height, seed, params)),
            Err(er) => Err(er),
        }
    }

    /// The current generation, read-only, row-major.
    pub fn current(&self) -> (r: &Vec<Cell>)
        ensures
            r@ == self@.grid,
    {
        &self.cells
    }

    /// Grid width in cells.
    pub fn width(&self) -> (r: usize)
        ensures
            r == self@.width,
    {
        self.width
    }

    /// Grid height in cells.
    pub fn height(&self) -> (r: usize)
        ensures
            r == self@.height,
    {
        self.height
    }

    /// The tunable parameters as they stand.
    pub fn params(&self) -> (r: Params)
        ensures
            r == self@.params,
    {
        self.params
    }

    /// Overwrite one cell of the current generation.
    pub fn set_cell(&mut self, x: usize, y: usize, c: Cell)
        requires
            old(self).wf(),
            x < old(self)@.width,
            y < old(self)@.height,
        ensures
            final(self).wf(),
            final(self)@ == (EngineModel {
                grid: old(self)@.grid.update(idx(old(self)@.width as int, x as int, y as int), c),
                ..old(self)@
            }),
    {
        let n = self.cells.len();
        proof {
            assert((y as int) * (self.width as int) + x < (self.width as int) * (
            self.height as int)) by (nonlinear_arith)
                requires
                    0 <= x < self.width as int,
                    0 <= y < self.height as int,
            ;
        }
        let i: usize = y * self.width + x;
        self.cells.set(i, c);
    }

    /// Reset the current generation to all bare ground.
    pub fn clear(&mut self)
        requires
            old(self).wf(),
        ensures
            final(self).wf(),
            final(self)@ == (EngineModel {
                grid: Seq::new(old(self)@.grid.len(), |j: int| Cell::Empty),
                ..old(self)@
            }),
    {
        let ghost pre = *self;
        let n = self.cells.len();
        let mut i: usize = 0;
        while i < n
            invariant
                i <= n,
                self.cells@.len() == n,
                forall|j: int| 0 <= j < i ==> self.cells@[j] == Cell::Empty,
                self.width == pre.width,
                self.height == pre.height,
                self.scratch == pre.scratch,
                self.params == pre.params,
                self.counter == pre.counter,
                self.rng@ == pre.rng@,
            decreases n - i,
        {
            self.cells.set(i, Cell::Empty);
            i = i + 1;
        }
        proof {
            assert(self.cells@ =~= Seq::new(pre.cells@.len(), |j: int| Cell::Empty));
        }
    }

    /// Advance the simulation one generation.
    ///
    /// Every cell's next state is computed from the frozen pre-step grid
    /// into the scratch buffer; only then are the buffers exchanged, so no
    /// partial generation is ever exposed.
    #[verifier::rlimit(100)]
    pub fn step(&mut self)
        requires
            old(self).wf(),
        ensures
            final(self).wf(),
            final(self)@.width == old(self)@.width,
            final(self)@.height == old(self)@.height,
            final(self)@.params == old(self)@.params,
            final(self)@.seed == old(self)@.seed,
            final(self)@.counter == old(self)@.counter,
            final(self)@.grid == step_spec(
                old(self)@.grid,
                old(self)@.width as int,
                old(self)@.height as int,
                old(self)@.params,
                old(self)@.seed,
                old(self)@.drawn,
            ),
            final(self)@.drawn == step_draws(
                old(self)@.grid,
                old(self)@.width as int,
                old(self)@.height as int,
                old(self)@.params,
                old(self)@.seed,
                old(self)@.drawn,
            ),
    {
        let ghost pre = *self;
        let ghost g0 = self.cells@;
        let ghost p0 = self.params;
        let ghost seed0 = self.rng@.seed;
        let ghost k0 = self.rng@.drawn;
        let w = self.width;
        let h = self.height;
        let n = self.cells.len();
        let mut i: usize = 0;
        while i < n
            invariant
                i <= n,
                self.cells@.len() == n,
                n == (w as int) * (h as int),
                self.width == w,
                self.height == h,
                self.cells@ == g0,
                self.params == p0,
                p0.wf(),
                self.scratch@.len() == n,
                self.counter == pre.counter,
                self.rng@.seed == seed0,
                self.rng@.drawn == draw_index(g0, w as int, h as int, p0, seed0, k0, i as int),
                forall|j: int|
                    0 <= j < i ==> self.scratch@[j] == step_spec(
                        g0,
                        w as int,
                        h as int,
                        p0,
                        seed0,
                        k0,
                    )[j],
            decreases n - i,
        {
            proof {
                assert(w > 0) by {
                    if w == 0 {
                        assert((0 as int) * (h as int) == 0) by (nonlinear_arith);
                    }
                }
                lemma_multiply_divide_lt(i as int, w as int, h as int);
                lemma_fundamental_div_mod(i as int, w as int);
            }
            let x = i % w;
            let y = i / w;
            let pr = pressure(&self.cells, w, h, x, y);
            let c = self.cells[i];
            let p = self.params;
            let next = transition(c, pr, &p, &mut self.rng);
            proof {
                reveal(step_spec);
                let ii = i as int;
                let wi = w as int;
                let hi = h as int;
                assert(step_spec(g0, wi, hi, p0, seed0, k0)[ii] == cell_next(
                    g0[ii],
                    pressure_at(g0, wi, hi, ii % wi, ii / wi),
                    p0,
                    seed0,
                    draw_index(g0, wi, hi, p0, seed0, k0, ii),
                ));
                assert(draw_index(g0, wi, hi, p0, seed0, k0, ii + 1) == draw_index(
                    g0,
                    wi,
                    hi,
                    p0,
                    seed0,
                    k0,
                    ii,
                ) + cell_draws(
                    g0[ii],
                    pressure_at(g0, wi, hi, ii % wi, ii / wi),
                    p0,
                    seed0,
                    draw_index(g0, wi, hi, p0, seed0, k0, ii),
                ));
            }
            self.scratch.set(i, next);
            i = i + 1;
        }
        proof {
            reveal(step_spec);
            assert(self.scratch@ =~= step_spec(g0, w as int, h as int, p0, seed0, k0));
        }
        core::mem::swap(&mut self.cells, &mut self.scratch);
    }

    /// Register one external tick; run a generation on every
    /// `step_divisor`-th tick.
    pub fn on_external_tick(&mut self)
        requires
            old(self).wf(),
        ensures
            final(self).wf(),
            final(self)@.width == old(self)@.width,
            final(self)@.height == old(self)@.height,
            final(self)@.params == old(self)@.params,
            final(self)@.seed == old(self)@.seed,
            old(self)@.counter + 1 >= old(self)@.params.step_divisor ==> {
                &&& final(self)@.counter == 0
                &&& final(self)@.grid == step_spec(
                    old(self)@.grid,
                    old(self)@.width as int,
                    old(self)@.height as int,
                    old(self)@.params,
                    old(self)@.seed,
                    old(self)@.drawn,
                )
                &&& final(self)@.drawn == step_draws(
                    old(self)@.grid,
                    old(self)@.width as int,
                    old(self)@.height as int,
                    old(self)@.params,
                    old(self)@.seed,
                    old(self)@.drawn,
                )
            },
            old(self)@.counter + 1 < old(self)@.params.step_divisor ==> {
                &&& final(self)@.counter == old(self)@.counter + 1
                &&& final(self)@.grid == old(self)@.grid
                &&& final(self)@.drawn == old(self)@.drawn
            },
    {
        let c = self.counter + 1;
        if c >= self.params.step_divisor {
            self.counter = 0;
            self.step();
        } else {
            self.counter = c;
        }
    }

    /// Set the growth chance, clamped to its declared range.
    pub fn set_grow_chance(&mut self, v: u64)
        requires
            old(self).wf(),
        ensures
            final(self).wf(),
            final(self)@ == (EngineModel {
                params: Params {
                    grow_chance: clamped_u64(v, GROW_MIN, GROW_MAX),
                    ..old(self)@.params
                },
                ..old(self)@
            }),
    {
        self.params.set_grow_chance(v);
    }

    /// Set the lightning-strike chance, clamped to its declared range.
    pub fn set_strike_chance(&mut self, v: u64)
        requires
            old(self).wf(),
        ensures
            final(self).wf(),
            final(self)@ == (EngineModel {
                params: Params {
                    strike_chance: clamped_u64(v, STRIKE_MIN, STRIKE_MAX),
                    ..old(self)@.params
                },
                ..old(self)@
            }),
    {
        self.params.set_strike_chance(v);
    }

    /// Set the spread multiplier, clamped to its declared range.
    pub fn set_spread_chance(&mut self, v: u64)
        requires
            old(self).wf(),
        ensures
            final(self).wf(),
            final(self)@ == (EngineModel {
                params: Params {
                    spread_chance: clamped_u64(v, SPREAD_MIN, SPREAD_MAX),
                    ..old(self)@.params
                },
                ..old(self)@
            }),
    {
        self.params.set_spread_chance(v);
    }

    /// Set the throttle divisor, clamped to its declared range.
    pub fn set_step_divisor(&mut self, v: u8)
        requires
            old(self).wf(),
        ensures
            final(self).wf(),
            final(self)@ == (EngineModel {
                params: Params {
                    step_divisor: clamped_u8(v, DIVISOR_MIN, DIVISOR_MAX),
                    ..old(self)@.params
                },
                ..old(self)@
            }),
    {
        self.params.set_step_divisor(v);
    }
}

} // verus!
