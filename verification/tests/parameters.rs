//! Clamping behavior of the parameter setters, and the probability
//! primitives at their extremes.

use forest_sim::engine::Engine;
use forest_sim::params::{
    Params, DIVISOR_MAX, DIVISOR_MIN, GROW_MAX, GROW_MIN, SPREAD_MAX, SPREAD_MIN, STRIKE_MAX,
    STRIKE_MIN,
};
use forest_sim::prob::{bernoulli, PROB_ONE};

#[test]
fn grow_chance_clamps_to_its_range() {
    let mut p = Params::new(0, 0, SPREAD_MIN, 1);
    p.set_grow_chance(0);
    assert_eq!(p.grow_chance, GROW_MIN);
    p.set_grow_chance(u64::MAX);
    assert_eq!(p.grow_chance, GROW_MAX);
    p.set_grow_chance(GROW_MIN + 17);
    assert_eq!(p.grow_chance, GROW_MIN + 17);
}

#[test]
fn strike_chance_clamps_to_its_range() {
    let mut p = Params::new(0, 0, SPREAD_MIN, 1);
    p.set_strike_chance(0);
    assert_eq!(p.strike_chance, STRIKE_MIN);
    p.set_strike_chance(PROB_ONE);
    assert_eq!(p.strike_chance, STRIKE_MAX);
    p.set_strike_chance(STRIKE_MAX - 1);
    assert_eq!(p.strike_chance, STRIKE_MAX - 1);
}

#[test]
fn spread_chance_clamps_to_its_range() {
    let mut p = Params::new(0, 0, SPREAD_MIN, 1);
    p.set_spread_chance(0);
    assert_eq!(p.spread_chance, SPREAD_MIN);
    p.set_spread_chance(PROB_ONE);
    assert_eq!(p.spread_chance, SPREAD_MAX);
    p.set_spread_chance(SPREAD_MIN + 5);
    assert_eq!(p.spread_chance, SPREAD_MIN + 5);
}

#[test]
fn step_divisor_clamps_to_its_range() {
    let mut p = Params::new(0, 0, SPREAD_MIN, 1);
    p.set_step_divisor(0);
    assert_eq!(p.step_divisor, DIVISOR_MIN);
    p.set_step_divisor(200);
    assert_eq!(p.step_divisor, DIVISOR_MAX);
    p.set_step_divisor(7);
    assert_eq!(p.step_divisor, 7);
}

#[test]
fn engine_setters_clamp_like_the_controller() {
    let mut e = Engine::new(2, 2, 3, Params::new(0, 0, SPREAD_MIN, 1));
    e.set_grow_chance(u64::MAX);
    e.set_strike_chance(0);
    e.set_spread_chance(0);
    e.set_step_divisor(99);
    let p = e.params();
    assert_eq!(p.grow_chance, GROW_MAX);
    assert_eq!(p.strike_chance, STRIKE_MIN);
    assert_eq!(p.spread_chance, SPREAD_MIN);
    assert_eq!(p.step_divisor, DIVISOR_MAX);
}

#[test]
fn bernoulli_at_the_extremes() {
    for draw in [0u64, 1, 12345, u64::MAX / 2, u64::MAX] {
        assert!(bernoulli(draw, PROB_ONE));
        assert!(!bernoulli(draw, 0));
    }
}
