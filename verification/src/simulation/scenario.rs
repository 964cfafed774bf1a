//! The scenarios the registry can hold, as one tagged type.

use crate::simulation::earth_moon::EarthMoonSimulation;
use crate::simulation::galaxy::GalaxySimulation;
use crate::simulation::solar_system::SolarSystemSimulation;
use crate::simulation::trait_def::Simulation;
use crate::simulation::types::Body;
use vstd::prelude::*;

verus! {

/// One of the scenarios; it behaves as the provider it names.
#[derive(Clone, Copy, Debug, PartialEq, Eq)]
pub enum Scenario {
    Galaxy,
    EarthMoon,
    SolarSystem,
}

impl Simulation for Scenario {
    open spec fn spec_name(&self) -> Seq<char> {
        match self {
            Scenario::Galaxy => GalaxySimulation.spec_name(),
            Scenario::EarthMoon => EarthMoonSimulation.spec_name(),
            Scenario::SolarSystem => SolarSystemSimulation.spec_name(),
        }
    }

    open spec fn spec_description(&self) -> Seq<char> {
        match self {
            Scenario::Galaxy => GalaxySimulation.spec_description(),
            Scenario::EarthMoon => EarthMoonSimulation.spec_description(),
            Scenario::SolarSystem => SolarSystemSimulation.spec_description(),
        }
    }

    open spec fn spec_generated_count(&self, count: nat) -> nat {
        match self {
            Scenario::Galaxy => GalaxySimulation.spec_generated_count(count),
            Scenario::EarthMoon => EarthMoonSimulation.spec_generated_count(count),
            Scenario::SolarSystem => SolarSystemSimulation.spec_generated_count(count),
        }
    }

    open spec fn spec_bodies(&self, count: nat, generated: Seq<Body>) -> Seq<Body> {
        match self {
            Scenario::Galaxy => GalaxySimulation.spec_bodies(count, generated),
            Scenario::EarthMoon => EarthMoonSimulation.spec_bodies(count, generated),
            Scenario::SolarSystem => SolarSystemSimulation.spec_bodies(count, generated),
        }
    }

    open spec fn spec_camera_position(&self) -> [u32; 3] {
        match self {
            Scenario::Galaxy => GalaxySimulation.spec_camera_position(),
            Scenario::EarthMoon => EarthMoonSimulation.spec_camera_position(),
            Scenario::SolarSystem => SolarSystemSimulation.spec_camera_position(),
        }
    }

    open spec fn spec_camera_target(&self) -> [u32; 3] {
        match self {
            Scenario::Galaxy => GalaxySimulation.spec_camera_target(),
            Scenario::EarthMoon => EarthMoonSimulation.spec_camera_target(),
            Scenario::SolarSystem => SolarSystemSimulation.spec_camera_target(),
        }
    }

    fn name(&self) -> (name: &'static str) {
        match self {
            Scenario::Galaxy => GalaxySimulation.name(),
            Scenario::EarthMoon => EarthMoonSimulation.name(),
            Scenario::SolarSystem => SolarSystemSimulation.name(),
        }
    }

    fn description(&self) -> (description: &'static str) {
        match self {
            Scenario::Galaxy => GalaxySimulation.description(),
            Scenario::EarthMoon => EarthMoonSimulation.description(),
            Scenario::SolarSystem => SolarSystemSimulation.description(),
        }
    }

    fn generated_count(&self, count: u32) -> (needed: u32) {
        match self {
            Scenario::Galaxy => GalaxySimulation.generated_count(count),
            Scenario::EarthMoon => EarthMoonSimulation.generated_count(count),
            Scenario::SolarSystem => SolarSystemSimulation.generated_count(count),
        }
    }

    fn initialize_bodies(&self, count: u32, generated: &Vec<Body>) -> (bodies: Vec<Body>) {
        match self {
            Scenario::Galaxy => GalaxySimulation.initialize_bodies(count, generated),
            Scenario::EarthMoon => EarthMoonSimulation.initialize_bodies(count, generated),
            Scenario::SolarSystem => SolarSystemSimulation.initialize_bodies(count, generated),
        }
    }

    fn camera_position(&self) -> (position: [u32; 3]) {
        match self {
            Scenario::Galaxy => GalaxySimulation.camera_position(),
            Scenario::EarthMoon => EarthMoonSimulation.camera_position(),
            Scenario::SolarSystem => SolarSystemSimulation.camera_position(),
        }
    }

    fn camera_target(&self) -> (target: [u32; 3]) {
        match self {
            Scenario::Galaxy => GalaxySimulation.camera_target(),
            Scenario::EarthMoon => EarthMoonSimulation.camera_target(),
            Scenario::SolarSystem => SolarSystemSimulation.camera_target(),
        }
    }
}

/// Handing a scenario more computed bodies than it has room for changes
/// nothing: the population is the one built from as many as
/// `generated_count` asks for.
pub proof fn lemma_generated_count_suffices(scenario: Scenario, count: nat, generated: Seq<Body>)
    requires
        generated.len() >= scenario.spec_generated_count(count),
    ensures
        scenario.spec_bodies(count, generated) == scenario.spec_bodies(
            count,
            generated.take(scenario.spec_generated_count(count) as int),
        ),
        scenario.spec_bodies(count, generated).len() == count,
{
    let needed = scenario.spec_generated_count(count) as int;
    assert(scenario.spec_bodies(count, generated) =~= scenario.spec_bodies(
        count,
        generated.take(needed),
    ));
}

} // verus!
