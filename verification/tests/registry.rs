use nbody::simulation::manager::SimulationManager;
use nbody::simulation::scenario::Scenario;
use nbody::simulation::trait_def::Simulation;
use nbody::simulation::types::{Body, NUM_BODIES};

fn marked(tag: u32, n: usize) -> Vec<Body> {
    (0..n)
        .map(|i| Body {
            position: [tag, i as u32, 0, 1.0f32.to_bits()],
            velocity: [0, 0, 0, 0],
            color: [tag, tag, tag, tag],
        })
        .collect()
}

#[test]
fn body_count_is_1024() {
    assert_eq!(NUM_BODIES, 1024);
}

#[test]
fn a_new_registry_starts_with_the_galaxy() {
    let seed = marked(7, 1023);
    let manager = SimulationManager::new(&seed);
    assert_eq!(manager.get_current_index(), 0);
    assert_eq!(manager.get_current_simulation(), Scenario::Galaxy);
    assert_eq!(manager.get_simulation_count(), 3);
    assert_eq!(manager.get_simulation(0), Some(Scenario::Galaxy));
    assert_eq!(manager.get_simulation(1), Some(Scenario::EarthMoon));
    assert_eq!(manager.get_simulation(2), Some(Scenario::SolarSystem));
    assert_eq!(manager.get_simulation(3), None);
    let bodies = manager.get_bodies();
    assert_eq!(bodies.len(), NUM_BODIES as usize);
    assert_eq!(bodies, Scenario::Galaxy.initialize_bodies(NUM_BODIES, &seed));
}

#[test]
fn get_bodies_hands_out_a_copy() {
    let manager = SimulationManager::new(&marked(7, 10));
    let mut first = manager.get_bodies();
    first[0].position[3] = 0;
    first.clear();
    let second = manager.get_bodies();
    assert_eq!(second.len(), NUM_BODIES as usize);
    assert_eq!(f32::from_bits(second[0].position[3]), 5000.0);
}

#[test]
fn next_moves_forward_and_stops_at_the_last_scenario() {
    let mut manager = SimulationManager::new(&marked(1, 4));
    assert!(manager.next_simulation(&marked(2, 4)));
    assert_eq!(manager.get_current_index(), 1);
    assert_eq!(manager.get_current_simulation(), Scenario::EarthMoon);
    assert_eq!(manager.get_bodies(), Scenario::EarthMoon.initialize_bodies(NUM_BODIES, &Vec::new()));
    assert!(manager.next_simulation(&marked(3, 4)));
    assert_eq!(manager.get_current_index(), 2);
    assert_eq!(
        manager.get_bodies(),
        Scenario::SolarSystem.initialize_bodies(NUM_BODIES, &marked(3, 4))
    );
    let before = manager.get_bodies();
    assert!(!manager.next_simulation(&marked(4, 4)));
    assert_eq!(manager.get_current_index(), 2);
    assert_eq!(manager.get_bodies(), before);
}

#[test]
fn previous_moves_back_and_stops_at_the_first_scenario() {
    let mut manager = SimulationManager::new(&marked(1, 4));
    let before = manager.get_bodies();
    assert!(!manager.previous_simulation(&marked(2, 4)));
    assert_eq!(manager.get_current_index(), 0);
    assert_eq!(manager.get_bodies(), before);
    assert!(manager.switch_to_simulation(2, &marked(3, 4)));
    assert!(manager.previous_simulation(&marked(4, 4)));
    assert_eq!(manager.get_current_index(), 1);
    assert!(manager.previous_simulation(&marked(5, 4)));
    assert_eq!(manager.get_current_index(), 0);
    assert_eq!(manager.get_bodies(), Scenario::Galaxy.initialize_bodies(NUM_BODIES, &marked(5, 4)));
}

#[test]
fn switch_to_rejects_an_index_out_of_bounds() {
    let mut manager = SimulationManager::new(&marked(1, 4));
    let before = manager.get_bodies();
    assert!(!manager.switch_to_simulation(3, &marked(2, 4)));
    assert!(!manager.switch_to_simulation(usize::MAX, &marked(2, 4)));
    assert_eq!(manager.get_current_index(), 0);
    assert_eq!(manager.get_bodies(), before);
}

#[test]
fn switch_to_replaces_the_population_whole() {
    let mut manager = SimulationManager::new(&marked(1, 2000));
    assert!(manager.switch_to_simulation(2, &marked(9, 3)));
    let bodies = manager.get_bodies();
    assert_eq!(bodies.len(), NUM_BODIES as usize);
    assert_eq!(f32::from_bits(bodies[0].position[3]), 333000.0);
    assert_eq!(bodies[1..4], marked(9, 3)[..]);
    for b in &bodies[4..] {
        assert_eq!(*b, Body::null());
    }
    assert!(manager.switch_to_simulation(2, &marked(8, 1)));
    assert_eq!(manager.get_bodies()[1], marked(8, 1)[0]);
    assert_eq!(manager.get_bodies()[2], Body::null());
}

#[test]
fn next_then_previous_restores_the_active_scenario() {
    for start in 0..2usize {
        let mut manager = SimulationManager::new(&marked(1, 4));
        assert!(manager.switch_to_simulation(start, &marked(2, 4)));
        let scenario = manager.get_current_simulation();
        assert!(manager.next_simulation(&marked(3, 4)));
        assert!(manager.previous_simulation(&marked(4, 4)));
        assert_eq!(manager.get_current_index(), start);
        assert_eq!(manager.get_current_simulation(), scenario);
        assert_eq!(manager.get_bodies(), scenario.initialize_bodies(NUM_BODIES, &marked(4, 4)));
        assert_eq!(manager.get_bodies().len(), NUM_BODIES as usize);
    }
}

#[test]
fn next_then_previous_at_the_last_scenario_moves_back_by_one() {
    let mut manager = SimulationManager::new(&marked(1, 4));
    assert!(manager.switch_to_simulation(2, &marked(2, 4)));
    assert!(!manager.next_simulation(&marked(3, 4)));
    assert!(manager.previous_simulation(&marked(4, 4)));
    assert_eq!(manager.get_current_index(), 1);
}
