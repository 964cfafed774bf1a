//! The disc population: one heavy body at the centre and a disc around it.

use crate::simulation::scalar::{ONE, ZERO};
use crate::simulation::trait_def::{populate, spec_population};
use crate::simulation::types::Body;
use vstd::prelude::*;

verus! {

/// Pattern of `5000.0`, the mass of the central body.
pub const CENTRAL_MASS: u32 = 0x459C_4000;

/// Pattern of `0.9`, the green of the central body.
pub const CENTRAL_GREEN: u32 = 0x3F66_6666;

/// Pattern of `0.1`, the blue of the central body.
pub const CENTRAL_BLUE: u32 = 0x3DCC_CCCD;

/// The central body: at the origin, at rest, yellow, of mass 5000.
pub open spec fn spec_central_body() -> Body {
    Body {
        position: [ZERO, ZERO, ZERO, CENTRAL_MASS],
        velocity: [ZERO, ZERO, ZERO, ZERO],
        color: [ONE, CENTRAL_GREEN, CENTRAL_BLUE, ONE],
    }
}

/// The central body.
#[verifier::when_used_as_spec(spec_central_body)]
pub fn central_body() -> (body: Body)
    ensures
        body == spec_central_body(),
{
    Body {
        position: [ZERO, ZERO, ZERO, CENTRAL_MASS],
        velocity: [ZERO, ZERO, ZERO, ZERO],
        color: [ONE, CENTRAL_GREEN, CENTRAL_BLUE, ONE],
    }
}

/// A population of `count` bodies: the central body first, then the bodies
/// of `disc` in order, then null bodies where `disc` runs out.
pub fn create_random_bodies(count: u32, disc: &Vec<Body>) -> (bodies: Vec<Body>)
    ensures
        bodies@ == spec_population(seq![spec_central_body()], disc@, count as nat),
        bodies@.len() == count,
{
    let mut fixed: Vec<Body> = Vec::new();
    fixed.push(central_body());
    assert(fixed@ =~= seq![spec_central_body()]);
    populate(&fixed, disc, count)
}

} // verus!
