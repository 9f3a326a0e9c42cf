//! The neighbor fire-intensity aggregator.
//!
//! The ignition pressure on a cell is the maximum, over its up-to-8 Moore
//! neighbors present on the grid (hard boundaries, no wraparound), of the
//! neighbor's fire intensity — raw for the four orthogonal neighbors, and
//! attenuated by 1/sqrt(2) for the four diagonal ones, which stand farther
//! away. The maximum, not the sum: spread is driven by the single most
//! intense adjacent source.

use vstd::prelude::*;

verus! {

use crate::cell::{intensity, intensity_of, Cell};
use crate::prob::{prob_mul, prob_mul_exec, INV_SQRT_2, PROB_ONE};

/// Row-major index of cell (x, y) in a grid of width `w`.
pub open spec fn idx(w: int, x: int, y: int) -> int {
    y * w + x
}

/// The greater of two weights.
pub open spec fn max64(a: u64, b: u64) -> u64 {
    if a >= b {
        a
    } else {
        b
    }
}

/// What the neighbor at offset (dx, dy) from (x, y) contributes to the
/// pressure: nothing where it lies off the grid, its raw intensity
/// orthogonally, and its intensity scaled by 1/sqrt(2) diagonally.
pub open spec fn neighbor_term(
    g: Seq<Cell>,
    w: int,
    h: int,
    x: int,
    y: int,
    dx: int,
    dy: int,
) -> u64 {
    if 0 <= x + dx < w && 0 <= y + dy < h {
        if dx != 0 && dy != 0 {
            prob_mul(intensity(g[idx(w, x + dx, y + dy)]), INV_SQRT_2)
        } else {
            intensity(g[idx(w, x + dx, y + dy)])
        }
    } else {
        0
    }
}

/// The ignition pressure on cell (x, y) of a `w` by `h` grid.
pub open spec fn pressure_at(g: Seq<Cell>, w: int, h: int, x: int, y: int) -> u64 {
    max64(
        max64(
            max64(
                max64(
                    max64(
                        max64(
                            max64(
                                max64(0, neighbor_term(g, w, h, x, y, -1, 0)),
                                neighbor_term(g, w, h, x, y, 1, 0),
                            ),
                            neighbor_term(g, w, h, x, y, 0, -1),
                        ),
                        neighbor_term(g, w, h, x, y, -1, -1),
                    ),
                    neighbor_term(g, w, h, x, y, 1, -1),
                ),
                neighbor_term(g, w, h, x, y, 0, 1),
            ),
            neighbor_term(g, w, h, x, y, -1, 1),
        ),
        neighbor_term(g, w, h, x, y, 1, 1),
    )
}

/// Executable maximum of two weights.
fn max_u64(a: u64, b: u64) -> (r: u64)
    ensures
        r == max64(a, b),
{
    if a >= b {
        a
    } else {
        b
    }
}

/// The attenuated contribution of one diagonal neighbor.
fn diagonal_term(c: Cell) -> (r: u64)
    ensures
        r == prob_mul(intensity(c), INV_SQRT_2),
        r <= PROB_ONE,
{
    let i = intensity_of(c);
    prob_mul_exec(i, INV_SQRT_2)
}

/// The ignition pressure on cell (x, y), read from the frozen grid.
#[verifier::rlimit(50)]
pub fn pressure(cells: &Vec<Cell>, w: usize, h: usize, x: usize, y: usize) -> (r: u64)
    requires
        cells@.len() == w * h,
        x < w,
        y < h,
    ensures
        r == pressure_at(cells@, w as int, h as int, x as int, y as int),
        r <= PROB_ONE,
{
    let n = cells.len();
    proof {
        assert((y as int) * (w as int) + x < (w as int) * (h as int)) by (nonlinear_arith)
            requires
                0 <= x < w as int,
                0 <= y < h as int,
        ;
        if (x as int) + 1 < w as int {
            assert((y as int) * (w as int) + (x as int) + 1 < (w as int) * (h as int))
                by (nonlinear_arith)
                requires
                    0 <= (x as int) + 1 < w as int,
                    0 <= y < h as int,
            ;
        }
        if (y as int) + 1 < h as int {
            assert(((y as int) + 1) * (w as int) + (x as int) < (w as int) * (h as int))
                by (nonlinear_arith)
                requires
                    0 <= x < w as int,
                    0 <= (y as int) + 1 < h as int,
            ;
            if (x as int) + 1 < w as int {
                assert(((y as int) + 1) * (w as int) + (x as int) + 1 < (w as int) * (h as int))
                    by (nonlinear_arith)
                    requires
                        0 <= (x as int) + 1 < w as int,
                        0 <= (y as int) + 1 < h as int,
                ;
            }
        }
        assert(((y as int) - 1) * (w as int) == (y as int) * (w as int) - (w as int))
            by (nonlinear_arith);
        assert(((y as int) + 1) * (w as int) == (y as int) * (w as int) + (w as int))
            by (nonlinear_arith);
        assert((y as int) * (w as int) >= 0) by (nonlinear_arith)
            requires
                0 <= y as int,
                0 <= w as int,
        ;
        if y >= 1 {
            assert((y as int) * (w as int) >= w as int) by (nonlinear_arith)
                requires
                    1 <= y as int,
                    0 <= w as int,
            ;
        }
    }
    let center: usize = y * w + x;
    let mut m: u64 = 0;
    if x > 0 {
        m = max_u64(m, intensity_of(cells[center - 1]));
    }
    if x + 1 < w {
        m = max_u64(m, intensity_of(cells[center + 1]));
    }
    if y > 0 {
        let up = center - w;
        m = max_u64(m, intensity_of(cells[up]));
        if x > 0 {
            m = max_u64(m, diagonal_term(cells[up - 1]));
        }
        if x + 1 < w {
            m = max_u64(m, diagonal_term(cells[up + 1]));
        }
    }
    if y + 1 < h {
        let down = center + w;
        m = max_u64(m, intensity_of(cells[down]));
        if x > 0 {
            m = max_u64(m, diagonal_term(cells[down - 1]));
        }
        if x + 1 < w {
            m = max_u64(m, diagonal_term(cells[down + 1]));
        }
    }
    m
}

} // verus!
