//! The solar system, in Earth masses and scaled astronomical units.

use crate::simulation::scalar::{ONE, ZERO};
use crate::simulation::trait_def::{populate, spec_population, Simulation};
use crate::simulation::types::Body;
use vstd::prelude::*;

verus! {

/// Pattern of `333000.0`, the mass of the Sun in Earth masses.
pub const SOLAR_SUN_MASS: u32 = 0x48A2_9900;

/// Pattern of `30.0`, the radius the Sun is drawn with.
pub const SOLAR_SUN_RADIUS: u32 = 0x41F0_0000;

/// Pattern of `0.9`, the green of the Sun.
pub const SOLAR_SUN_GREEN: u32 = 0x3F66_6666;

/// Pattern of `0.1`, the blue of the Sun.
pub const SOLAR_SUN_BLUE: u32 = 0x3DCC_CCCD;

/// Pattern of `100.0`, the height of the camera.
pub const SOLAR_CAMERA_Y: u32 = 0x42C8_0000;

/// Pattern of `200.0`, the distance of the camera.
pub const SOLAR_CAMERA_Z: u32 = 0x4348_0000;

/// The Sun: at the origin, at rest, yellow.
pub open spec fn spec_solar_sun() -> Body {
    Body {
        position: [ZERO, ZERO, ZERO, SOLAR_SUN_MASS],
        velocity: [ZERO, ZERO, ZERO, SOLAR_SUN_RADIUS],
        color: [ONE, SOLAR_SUN_GREEN, SOLAR_SUN_BLUE, ONE],
    }
}

/// The Sun, then the planets on their orbits, then asteroids and debris.
/// Planets and debris are computed by the caller, planets first.
#[derive(Clone, Copy, Debug, PartialEq, Eq)]
pub struct SolarSystemSimulation;

impl Simulation for SolarSystemSimulation {
    open spec fn spec_name(&self) -> Seq<char> {
        "Solar System"@
    }

    open spec fn spec_description(&self) -> Seq<char> {
        "An accurate simulation of our solar system with correct masses and distances"@
    }

    open spec fn spec_generated_count(&self, count: nat) -> nat {
        if count >= 1 {
            (count - 1) as nat
        } else {
            0
        }
    }

    open spec fn spec_bodies(&self, count: nat, generated: Seq<Body>) -> Seq<Body> {
        spec_population(seq![spec_solar_sun()], generated, count)
    }

    open spec fn spec_camera_position(&self) -> [u32; 3] {
        [ZERO, SOLAR_CAMERA_Y, SOLAR_CAMERA_Z]
    }

    open spec fn spec_camera_target(&self) -> [u32; 3] {
        [ZERO, ZERO, ZERO]
    }

    fn name(&self) -> (name: &'static str) {
        "Solar System"
    }

    fn description(&self) -> (description: &'static str) {
        "An accurate simulation of our solar system with correct masses and distances"
    }

    fn generated_count(&self, count: u32) -> (needed: u32) {
        if count >= 1 {
            count - 1
        } else {
            0
        }
    }

    fn initialize_bodies(&self, count: u32, generated: &Vec<Body>) -> (bodies: Vec<Body>) {
        let mut fixed: Vec<Body> = Vec::new();
        fixed.push(Body {
            position: [ZERO, ZERO, ZERO, SOLAR_SUN_MASS],
            velocity: [ZERO, ZERO, ZERO, SOLAR_SUN_RADIUS],
            color: [ONE, SOLAR_SUN_GREEN, SOLAR_SUN_BLUE, ONE],
        });
        assert(fixed@ =~= seq![spec_solar_sun()]);
        populate(&fixed, generated, count)
    }

    fn camera_position(&self) -> (position: [u32; 3]) {
        [ZERO, SOLAR_CAMERA_Y, SOLAR_CAMERA_Z]
    }

    fn camera_target(&self) -> (target: [u32; 3]) {
        [ZERO, ZERO, ZERO]
    }
}

} // verus!
