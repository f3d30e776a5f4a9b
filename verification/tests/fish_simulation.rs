//! The fish-population stepper: aging, deaths, restocking and the recorded
//! history.

use topography::fish::{Fish, FishSimulation};

/// A fresh simulation holds newborn fish with consecutive identifiers and a
/// one-entry history.
#[test]
fn new_simulation_starts_with_newborns() {
    let sim = FishSimulation::new_with_seed(3, 10, 1, 2, 9);
    assert_eq!(sim.fish.len(), 3);
    for (i, f) in sim.fish.iter().enumerate() {
        assert_eq!(*f, Fish { id: i, age: 0, alive: true });
    }
    assert_eq!(sim.next_id, 3);
    assert_eq!(sim.history(), &vec![3]);
    assert_eq!(sim.population_count(), 3);
}

/// At death rate zero nobody dies young: one tick only ages the fish, and a
/// low population is restocked.
#[test]
fn zero_death_rate_only_ages() {
    let mut sim = FishSimulation::new_with_seed(3, 0, 10, 5, 1);
    sim.step();
    for f in sim.fish.iter().take(3) {
        assert_eq!(f.age, 1);
        assert!(f.alive);
    }
    // 3 survivors < threshold 10: restocked by 5.
    assert_eq!(sim.fish.len(), 8);
    assert_eq!(sim.next_id, 8);
    assert_eq!(sim.population_count(), 8);
    assert_eq!(sim.history(), &vec![3, 8]);
}

/// At death rate one hundred every living fish dies on the tick.
#[test]
fn full_death_rate_kills_everything() {
    let mut sim = FishSimulation::new_with_seed(2, 100, 1, 3, 7);
    sim.step();
    assert!(!sim.fish[0].alive);
    assert!(!sim.fish[1].alive);
    // 0 survivors < threshold 1: restocked by 3.
    assert_eq!(sim.fish.len(), 5);
    assert_eq!(sim.population_count(), 3);
    assert_eq!(sim.history(), &vec![2, 3]);
}

/// Fish die of old age once their age passes ten, even with no death rolls.
#[test]
fn fish_age_out_after_ten_ticks() {
    let mut sim = FishSimulation::new_with_seed(4, 0, 0, 0, 5);
    for _ in 0..10 {
        sim.step();
        assert_eq!(sim.population_count(), 4);
    }
    sim.step();
    assert_eq!(sim.population_count(), 0);
    assert_eq!(sim.fish.len(), 4);
    for f in sim.fish.iter() {
        assert_eq!(f.age, 11);
        assert!(!f.alive);
    }
    let expected: Vec<usize> =
        std::iter::once(4).chain(std::iter::repeat(4).take(10)).chain(std::iter::once(0)).collect();
    assert_eq!(sim.history(), &expected);
}

/// The dead are left untouched by later ticks.
#[test]
fn dead_fish_are_untouched() {
    let mut sim = FishSimulation::new_with_seed(2, 100, 0, 0, 11);
    sim.step();
    let after_first: Vec<Fish> = sim.fish.clone();
    sim.step();
    assert_eq!(sim.fish, after_first);
}

/// `alive_fish` returns exactly the living fish, in order.
#[test]
fn alive_fish_filters_in_order() {
    let mut sim = FishSimulation::new_with_seed(3, 0, 0, 0, 2);
    sim.step();
    let alive = sim.alive_fish();
    assert_eq!(alive.len(), 3);
    for (i, f) in alive.iter().enumerate() {
        assert_eq!(f.id, i);
        assert_eq!(f.age, 1);
    }
}

/// Restocking hands out fresh consecutive identifiers.
#[test]
fn spawn_fish_uses_fresh_ids() {
    let mut sim = FishSimulation::new_with_seed(2, 0, 0, 0, 3);
    sim.spawn_fish(3);
    assert_eq!(sim.fish.len(), 5);
    assert_eq!(sim.next_id, 5);
    for (i, f) in sim.fish.iter().enumerate() {
        assert_eq!(f.id, i);
    }
    assert_eq!(sim.fish[4], Fish { id: 4, age: 0, alive: true });
}
