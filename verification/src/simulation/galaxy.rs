//! The galaxy scenario.

use crate::simulation::init::{create_random_bodies, spec_central_body};
use crate::simulation::scalar::ZERO;
use crate::simulation::trait_def::{spec_population, Simulation};
use crate::simulation::types::Body;
use vstd::prelude::*;

verus! {

/// Pattern of `20.0`, the height of the camera.
pub const GALAXY_CAMERA_Y: u32 = 0x41A0_0000;

/// Pattern of `200.0`, the distance of the camera.
pub const GALAXY_CAMERA_Z: u32 = 0x4348_0000;

/// A disc of light bodies around one heavy central body.
#[derive(Clone, Copy, Debug, PartialEq, Eq)]
pub struct GalaxySimulation;

impl Simulation for GalaxySimulation {
    open spec fn spec_name(&self) -> Seq<char> {
        "Galaxy"@
    }

    open spec fn spec_description(&self) -> Seq<char> {
        "A spiral galaxy simulation with a central star and orbiting bodies"@
    }

    open spec fn spec_generated_count(&self, count: nat) -> nat {
        if count >= 1 {
            (count - 1) as nat
        } else {
            0
        }
    }

    open spec fn spec_bodies(&self, count: nat, generated: Seq<Body>) -> Seq<Body> {
        spec_population(seq![spec_central_body()], generated, count)
    }

    open spec fn spec_camera_position(&self) -> [u32; 3] {
        [ZERO, GALAXY_CAMERA_Y, GALAXY_CAMERA_Z]
    }

    open spec fn spec_camera_target(&self) -> [u32; 3] {
        [ZERO, ZERO, ZERO]
    }

    fn name(&self) -> (name: &'static str) {
        "Galaxy"
    }

    fn description(&self) -> (description: &'static str) {
        "A spiral galaxy simulation with a central star and orbiting bodies"
    }

    fn generated_count(&self, count: u32) -> (needed: u32) {
        if count >= 1 {
            count - 1
        } else {
            0
        }
    }

    fn initialize_bodies(&self, count: u32, generated: &Vec<Body>) -> (bodies: Vec<Body>) {
        create_random_bodies(count, generated)
    }

    fn camera_position(&self) -> (position: [u32; 3]) {
        [ZERO, GALAXY_CAMERA_Y, GALAXY_CAMERA_Z]
    }

    fn camera_target(&self) -> (target: [u32; 3]) {
        [ZERO, ZERO, ZERO]
    }
}

/// In a galaxy of at least one body the first is the central body, and the
/// bodies after it are the computed ones in order, as far as they go.
pub proof fn lemma_galaxy_layout(count: nat, generated: Seq<Body>, i: int)
    requires
        0 <= i < count,
    ensures
        GalaxySimulation.spec_bodies(count, generated)[0] == spec_central_body(),
        1 <= i <= generated.len() ==> GalaxySimulation.spec_bodies(count, generated)[i]
            == generated[i - 1],
        i > generated.len() ==> GalaxySimulation.spec_bodies(count, generated)[i]
            == Body::spec_null(),
{
}

} // verus!
