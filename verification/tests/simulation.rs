//! Behavior of the simulation engine on concrete grids and seeds.

use forest_sim::cell::Cell;
use forest_sim::engine::Engine;
use forest_sim::params::Params;
use forest_sim::pressure::pressure;
use forest_sim::prob::{INV_SQRT_2, PROB_ONE};

fn quiet_params() -> Params {
    // No spontaneous growth, no lightning: only deterministic dynamics.
    Params::new(0, 0, PROB_ONE / 2, 1)
}

fn cell_at(e: &Engine, x: usize, y: usize) -> Cell {
    e.current()[y * e.width() + x]
}

#[test]
fn decay_chain_center_of_three_by_three() {
    // All Empty except the center, which has just ignited. With growth and
    // lightning off, the center must walk the six-stage chain to ash while
    // everything else stays bare.
    let mut e = Engine::new(3, 3, 12345, quiet_params());
    e.set_cell(1, 1, Cell::Ignite);
    let chain = [
        Cell::Flame2,
        Cell::Flame3,
        Cell::Flame4,
        Cell::Ember1,
        Cell::Ember2,
        Cell::Ash,
    ];
    for (gen, expected) in chain.iter().enumerate() {
        e.step();
        assert_eq!(cell_at(&e, 1, 1), *expected, "generation {}", gen + 1);
        for y in 0..3 {
            for x in 0..3 {
                if (x, y) != (1, 1) {
                    assert_eq!(cell_at(&e, x, y), Cell::Empty);
                }
            }
        }
    }
}

#[test]
fn empty_grid_stays_empty() {
    let mut e = Engine::new(4, 4, 999, quiet_params());
    for _ in 0..25 {
        e.step();
        assert!(e.current().iter().all(|&c| c == Cell::Empty));
    }
}

#[test]
fn sapling_promotion_time_averages_four_generations() {
    // A lone sapling has zero neighbor pressure; with lightning off its
    // only transition is the Bernoulli(1/4) growth trial, so the mean
    // waiting time for promotion over many seeds must be close to 4.
    let mut total: f64 = 0.0;
    let trials = 2000u64;
    for seed in 0..trials {
        let mut e = Engine::new(1, 1, seed, quiet_params());
        e.set_cell(0, 0, Cell::Sapling);
        let mut generations = 0u32;
        while cell_at(&e, 0, 0) == Cell::Sapling {
            e.step();
            generations += 1;
            assert!(generations < 1000, "seed {seed} never promoted");
        }
        assert_eq!(cell_at(&e, 0, 0), Cell::YoungTree);
        total += generations as f64;
    }
    let mean = total / trials as f64;
    assert!(
        (mean - 4.0).abs() < 0.3,
        "empirical mean {mean} strays from 4"
    );
}

#[test]
fn orthogonal_ignite_neighbor_gives_pressure_one() {
    let mut cells = vec![Cell::Empty; 9];
    cells[1] = Cell::Ignite; // (1, 0), directly above the center (1, 1)
    assert_eq!(pressure(&cells, 3, 3, 1, 1), PROB_ONE);
}

#[test]
fn diagonal_ignite_neighbor_gives_pressure_inv_sqrt_two() {
    let mut cells = vec![Cell::Empty; 9];
    cells[0] = Cell::Ignite; // (0, 0), diagonal from the center (1, 1)
    let p = pressure(&cells, 3, 3, 1, 1);
    assert_eq!(p, INV_SQRT_2);
    let ratio = p as f64 / PROB_ONE as f64;
    let expected = 1.0 / (2.0f64).sqrt();
    assert!((ratio - expected).abs() < 1e-12);
}

#[test]
fn weaker_flames_give_weaker_pressure() {
    for (state, weight) in [
        (Cell::Flame2, PROB_ONE / 2),
        (Cell::Flame3, PROB_ONE / 4),
        (Cell::Flame4, PROB_ONE / 8),
        (Cell::Ember1, PROB_ONE / 16),
        (Cell::Ember2, PROB_ONE / 32),
        (Cell::Ash, 0),
        (Cell::MatureTree, 0),
    ] {
        let mut cells = vec![Cell::Empty; 9];
        cells[1] = state;
        assert_eq!(pressure(&cells, 3, 3, 1, 1), weight);
    }
}

#[test]
fn lone_cell_steps_safely() {
    // A 1x1 grid: the only cell sits on every boundary at once.
    let mut e = Engine::new(1, 1, 7, quiet_params());
    e.set_cell(0, 0, Cell::Ignite);
    e.step();
    assert_eq!(cell_at(&e, 0, 0), Cell::Flame2);
}

#[test]
fn corner_and_edge_cells_step_safely() {
    // The only burning cell sits in a corner; its reduced neighbor set
    // must leave the rest of the grid exactly as the rules say.
    let mut e = Engine::new(2, 2, 7, quiet_params());
    e.set_cell(0, 0, Cell::Ignite);
    e.step();
    assert_eq!(cell_at(&e, 0, 0), Cell::Flame2);
    assert_eq!(cell_at(&e, 1, 0), Cell::Empty);
    assert_eq!(cell_at(&e, 0, 1), Cell::Empty);
    assert_eq!(cell_at(&e, 1, 1), Cell::Empty);
    let mut edge = Engine::new(3, 1, 7, quiet_params());
    edge.set_cell(1, 0, Cell::Ember2);
    edge.step();
    assert_eq!(cell_at(&edge, 1, 0), Cell::Ash);
}

fn sapling_field(seed: u64) -> Engine {
    let mut e = Engine::new(6, 6, seed, quiet_params());
    for y in 0..6 {
        for x in 0..6 {
            e.set_cell(x, y, Cell::Sapling);
        }
    }
    e
}

#[test]
fn equal_seeds_reproduce_equal_generations() {
    let mut a = sapling_field(42);
    let mut b = sapling_field(42);
    for _ in 0..10 {
        a.step();
        b.step();
        assert_eq!(a.current(), b.current());
    }
}

#[test]
fn different_seeds_diverge() {
    let mut a = sapling_field(1);
    let mut b = sapling_field(2);
    for _ in 0..3 {
        a.step();
        b.step();
    }
    assert_ne!(a.current(), b.current());
}

#[test]
fn mature_tree_beside_ignition_always_catches_fire() {
    // Spread multiplier one and an orthogonal Ignite neighbor make the
    // ignition probability one: the outcome is the same for every seed.
    for seed in 0..25 {
        let mut e = Engine::new(1, 2, seed, Params::new(0, 0, PROB_ONE, 1));
        e.set_cell(0, 0, Cell::MatureTree);
        e.set_cell(0, 1, Cell::Ignite);
        e.step();
        assert_eq!(cell_at(&e, 0, 0), Cell::Ignite);
        assert_eq!(cell_at(&e, 0, 1), Cell::Flame2);
    }
}

#[test]
fn throttle_runs_a_generation_every_nth_tick() {
    let mut e = Engine::new(3, 3, 5, quiet_params());
    e.set_step_divisor(3);
    e.set_cell(1, 1, Cell::Ignite);
    e.on_external_tick();
    e.on_external_tick();
    assert_eq!(cell_at(&e, 1, 1), Cell::Ignite);
    e.on_external_tick();
    assert_eq!(cell_at(&e, 1, 1), Cell::Flame2);
    e.on_external_tick();
    e.on_external_tick();
    assert_eq!(cell_at(&e, 1, 1), Cell::Flame2);
    e.on_external_tick();
    assert_eq!(cell_at(&e, 1, 1), Cell::Flame3);
}

#[test]
fn clear_resets_the_grid_and_nothing_else() {
    let mut e = Engine::new(3, 3, 11, quiet_params());
    e.set_cell(0, 0, Cell::MatureTree);
    e.set_cell(2, 2, Cell::Ignite);
    e.step();
    e.clear();
    assert!(e.current().iter().all(|&c| c == Cell::Empty));
    assert_eq!(e.width(), 3);
    assert_eq!(e.height(), 3);
    assert_eq!(e.params(), quiet_params());
}

#[test]
fn entropy_construction_yields_an_empty_grid() {
    let e = Engine::from_entropy(5, 4, quiet_params()).expect("entropy source available");
    assert_eq!(e.width(), 5);
    assert_eq!(e.height(), 4);
    assert_eq!(e.current().len(), 20);
    assert!(e.current().iter().all(|&c| c == Cell::Empty));
}
