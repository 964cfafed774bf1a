//! The Sun and the Earth, in SI units, the Earth on a circular orbit.

use crate::simulation::scalar::{ONE, SIGN, ZERO};
use crate::simulation::trait_def::{spec_population, Simulation};
use crate::simulation::types::Body;
use vstd::prelude::*;

verus! {

/// Pattern of `1.98847e30`, the mass of the Sun in kilograms.
pub const SUN_MASS: u32 = 0x71C8_C8BF;

/// Pattern of `6.9634e8`, the radius of the Sun in metres.
pub const SUN_RADIUS: u32 = 0x4E26_0538;

/// Pattern of `0.9`, the green of the Sun.
pub const SUN_GREEN: u32 = 0x3F66_6666;

/// Pattern of `0.1`, the blue of the Sun.
pub const SUN_BLUE: u32 = 0x3DCC_CCCD;

/// Pattern of `1.496e11`, one astronomical unit in metres.
pub const EARTH_DISTANCE: u32 = 0x520B_536B;

/// Pattern of `5.9722e24`, the mass of the Earth in kilograms.
pub const EARTH_MASS: u32 = 0x689E_1534;

/// Pattern of `6.371e6`, the radius of the Earth in metres.
pub const EARTH_RADIUS: u32 = 0x4AC2_6D70;

/// Pattern of the speed on a circular orbit of one astronomical unit about
/// the Sun: the square root of `6.67430e-11 * 1.98847e30 / 1.496e11`, each
/// step rounded to binary32, which is `29784.93` metres a second.
pub const EARTH_SPEED: u32 = 0x46E8_B1DC;

/// Pattern of `0.2`, the red of the Earth.
pub const EARTH_RED: u32 = 0x3E4C_CCCD;

/// Pattern of `0.4`, the green of the Earth.
pub const EARTH_GREEN: u32 = 0x3ECC_CCCD;

/// Pattern of `0.8`, the blue of the Earth.
pub const EARTH_BLUE: u32 = 0x3F4C_CCCD;

/// Pattern of `20.0`, the height of the camera.
pub const EARTH_MOON_CAMERA_Y: u32 = 0x41A0_0000;

/// Pattern of `200.0`, the distance of the camera.
pub const EARTH_MOON_CAMERA_Z: u32 = 0x4348_0000;

/// The Sun: at the origin, at rest, yellow.
pub open spec fn spec_sun() -> Body {
    Body {
        position: [ZERO, ZERO, ZERO, SUN_MASS],
        velocity: [ZERO, ZERO, ZERO, SUN_RADIUS],
        color: [ONE, SUN_GREEN, SUN_BLUE, ONE],
    }
}

/// The Earth at orbit angle zero: on the x axis one astronomical unit out,
/// moving along z at the circular-orbit speed. Its x velocity is the speed
/// times minus the sine of zero, which is `-0.0`.
pub open spec fn spec_earth() -> Body {
    Body {
        position: [EARTH_DISTANCE, ZERO, ZERO, EARTH_MASS],
        velocity: [SIGN, ZERO, EARTH_SPEED, EARTH_RADIUS],
        color: [EARTH_RED, EARTH_GREEN, EARTH_BLUE, ONE],
    }
}

/// The Sun with the Earth in orbit; the rest of a population is null bodies.
#[derive(Clone, Copy, Debug, PartialEq, Eq)]
pub struct EarthMoonSimulation;

impl EarthMoonSimulation {
    /// The Sun at the centre of the system.
    pub fn create_sun(&self) -> (sun: Body)
        ensures
            sun == spec_sun(),
    {
        Body {
            position: [ZERO, ZERO, ZERO, SUN_MASS],
            velocity: [ZERO, ZERO, ZERO, SUN_RADIUS],
            color: [ONE, SUN_GREEN, SUN_BLUE, ONE],
        }
    }

    /// The Earth at orbit angle zero, with its position `x, z` and its
    /// velocity `vx, vz` in the orbital plane.
    pub fn create_earth(&self) -> (earth: (Body, [u32; 2], [u32; 2]))
        ensures
            earth.0 == spec_earth(),
            earth.1 == [EARTH_DISTANCE, ZERO],
            earth.2 == [SIGN, EARTH_SPEED],
    {
        let body = Body {
            position: [EARTH_DISTANCE, ZERO, ZERO, EARTH_MASS],
            velocity: [SIGN, ZERO, EARTH_SPEED, EARTH_RADIUS],
            color: [EARTH_RED, EARTH_GREEN, EARTH_BLUE, ONE],
        };
        (body, [EARTH_DISTANCE, ZERO], [SIGN, EARTH_SPEED])
    }

    /// `count` null bodies, to fill the places no real body takes.
    pub fn create_empty_bodies(&self, count: usize) -> (bodies: Vec<Body>)
        ensures
            bodies@.len() == count,
            forall|i: int| 0 <= i < count ==> bodies@[i] == Body::spec_null(),
    {
        let mut bodies: Vec<Body> = Vec::new();
        let mut i: usize = 0;
        while i < count
            invariant
                i <= count,
                bodies@.len() == i,
                forall|j: int| 0 <= j < i ==> bodies@[j] == Body::spec_null(),
            decreases count - i,
        {
            bodies.push(Body::null());
            i += 1;
        }
        bodies
    }
}

impl Simulation for EarthMoonSimulation {
    open spec fn spec_name(&self) -> Seq<char> {
        "Earth-Moon System"@
    }

    open spec fn spec_description(&self) -> Seq<char> {
        "Accurate 2D simulation of the Sun, Earth, and Moon with correct masses, distances, and velocities"@
    }

    open spec fn spec_generated_count(&self, count: nat) -> nat {
        0
    }

    open spec fn spec_bodies(&self, count: nat, generated: Seq<Body>) -> Seq<Body> {
        spec_population(seq![spec_sun(), spec_earth()], Seq::empty(), count)
    }

    open spec fn spec_camera_position(&self) -> [u32; 3] {
        [ZERO, EARTH_MOON_CAMERA_Y, EARTH_MOON_CAMERA_Z]
    }

    open spec fn spec_camera_target(&self) -> [u32; 3] {
        [ZERO, ZERO, ZERO]
    }

    fn name(&self) -> (name: &'static str) {
        "Earth-Moon System"
    }

    fn description(&self) -> (description: &'static str) {
        "Accurate 2D simulation of the Sun, Earth, and Moon with correct masses, distances, and velocities"
    }

    fn generated_count(&self, count: u32) -> (needed: u32) {
        0
    }

    fn initialize_bodies(&self, count: u32, generated: &Vec<Body>) -> (bodies: Vec<Body>) {
        let wanted: usize = count as usize;
        let mut bodies: Vec<Body> = Vec::new();
        if wanted >= 1 {
            bodies.push(self.create_sun());
        }
        if wanted >= 2 {
            let (earth_body, _earth_pos, _earth_vel) = self.create_earth();
            bodies.push(earth_body);
        }
        if wanted > bodies.len() {
            let remaining: usize = wanted - bodies.len();
            let mut empty = self.create_empty_bodies(remaining);
            bodies.append(&mut empty);
        }
        assert(bodies@ =~= self.spec_bodies(count as nat, generated@));
        bodies
    }

    fn camera_position(&self) -> (position: [u32; 3]) {
        [ZERO, EARTH_MOON_CAMERA_Y, EARTH_MOON_CAMERA_Z]
    }

    fn camera_target(&self) -> (target: [u32; 3]) {
        [ZERO, ZERO, ZERO]
    }
}

} // verus!
