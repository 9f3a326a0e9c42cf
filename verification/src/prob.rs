//! Q63 fixed-point probabilities and Bernoulli trials.
//!
//! A probability is a `u64` in `[0, PROB_ONE]`; `PROB_ONE` (2^63) stands
//! for certainty. A Bernoulli trial with success probability `p` takes one
//! uniform `u64` draw and succeeds exactly when the draw, reduced modulo
//! `PROB_ONE`, falls below `p`; `p == PROB_ONE` therefore succeeds on every
//! draw and `p == 0` on none.

use vstd::prelude::*;

verus! {

use vstd::arithmetic::mul::lemma_mul_inequality;

/// Certainty: the fixed-point rendition of probability 1.0.
pub const PROB_ONE: u64 = 9223372036854775808;

/// The fixed-point rendition of 0.5.
pub const PROB_HALF: u64 = 4611686018427387904;

/// The fixed-point rendition of 0.25.
pub const PROB_QUARTER: u64 = 2305843009213693952;

/// The fixed-point rendition of 0.125.
pub const PROB_EIGHTH: u64 = 1152921504606846976;

/// The fixed-point rendition of 0.0625.
pub const PROB_SIXTEENTH: u64 = 576460752303423488;

/// The fixed-point rendition of 0.03125.
pub const PROB_THIRTY_SECOND: u64 = 288230376151711744;

/// The fixed-point rendition of 1/sqrt(2), the attenuation a diagonal
/// neighbor's fire intensity receives for its greater distance.
pub const INV_SQRT_2: u64 = 6521908912666391106;

/// Whether a Bernoulli trial with success probability `p` succeeds on the
/// uniform draw `draw`.
pub open spec fn bern(draw: u64, p: u64) -> bool {
    (draw as int) % (PROB_ONE as int) < p
}

/// The fixed-point product of two probabilities, rounded down.
pub open spec fn prob_mul(a: u64, b: u64) -> u64 {
    (((a as int) * (b as int)) / (PROB_ONE as int)) as u64
}

/// The fixed-point product never exceeds either factor when both are
/// probabilities, so it is itself a probability.
pub proof fn lemma_prob_mul_bounds(a: u64, b: u64)
    requires
        a <= PROB_ONE,
        b <= PROB_ONE,
    ensures
        prob_mul(a, b) <= a,
        prob_mul(a, b) <= b,
        ((a as int) * (b as int)) / (PROB_ONE as int) == prob_mul(a, b),
{
    let ai = a as int;
    let bi = b as int;
    let one = PROB_ONE as int;
    lemma_mul_inequality(ai, one, bi);
    lemma_mul_inequality(bi, one, ai);
    assert(ai * bi <= one * bi) by {
        lemma_mul_inequality(ai, one, bi);
    }
    assert(ai * bi / one <= one * bi / one) by {
        vstd::arithmetic::div_mod::lemma_div_is_ordered(ai * bi, one * bi, one);
    }
    assert(one * bi / one == bi) by {
        vstd::arithmetic::div_mod::lemma_div_multiples_vanish(bi, one);
    }
    assert(bi * ai <= one * ai) by {
        lemma_mul_inequality(bi, one, ai);
    }
    assert(bi * ai / one <= one * ai / one) by {
        vstd::arithmetic::div_mod::lemma_div_is_ordered(bi * ai, one * ai, one);
    }
    assert(one * ai / one == ai) by {
        vstd::arithmetic::div_mod::lemma_div_multiples_vanish(ai, one);
    }
    assert(ai * bi == bi * ai) by {
        vstd::arithmetic::mul::lemma_mul_is_commutative(ai, bi);
    }
    assert(ai * bi >= 0) by {
        vstd::arithmetic::mul::lemma_mul_nonnegative(ai, bi);
    }
    assert(ai * bi / one >= 0) by {
        vstd::arithmetic::div_mod::lemma_div_pos_is_pos(ai * bi, one);
    }
}

/// Multiplying by certainty changes nothing: `prob_mul(PROB_ONE, b) == b`.
pub proof fn lemma_prob_mul_one(b: u64)
    requires
        b <= PROB_ONE,
    ensures
        prob_mul(PROB_ONE, b) == b,
        prob_mul(b, PROB_ONE) == b,
{
    let bi = b as int;
    let one = PROB_ONE as int;
    assert(one * bi / one == bi) by {
        vstd::arithmetic::div_mod::lemma_div_multiples_vanish(bi, one);
    }
    assert(bi * one == one * bi) by {
        vstd::arithmetic::mul::lemma_mul_is_commutative(bi, one);
    }
}

/// Multiplying by impossibility yields impossibility.
pub proof fn lemma_prob_mul_zero(a: u64)
    ensures
        prob_mul(a, 0) == 0,
        prob_mul(0, a) == 0,
{
}

/// A draw reduced modulo `PROB_ONE` lies in `[0, PROB_ONE)`, so a trial at
/// certainty always succeeds and a trial at zero never does.
pub proof fn lemma_bern_extremes(draw: u64)
    ensures
        bern(draw, PROB_ONE),
        !bern(draw, 0),
{
    vstd::arithmetic::div_mod::lemma_mod_bound(draw as int, PROB_ONE as int);
}

/// Executable Bernoulli trial on one uniform draw.
pub fn bernoulli(draw: u64, p: u64) -> (b: bool)
    ensures
        b == bern(draw, p),
{
    draw % PROB_ONE < p
}

/// Executable fixed-point probability product.
pub fn prob_mul_exec(a: u64, b: u64) -> (r: u64)
    requires
        a <= PROB_ONE,
        b <= PROB_ONE,
    ensures
        r == prob_mul(a, b),
        r <= a,
        r <= b,
{
    proof {
        lemma_prob_mul_bounds(a, b);
    }
    let wide: u128 = (a as u128) * (b as u128);
    let q: u128 = wide / (PROB_ONE as u128);
    q as u64
}

} // verus!
