//! What every scenario provides, and how a population is put together.

use crate::simulation::types::Body;
use vstd::prelude::*;

verus! {

/// The body at place `i` of a population: the scenario's own bodies come
/// first, then the bodies computed for it, then null bodies without end.
pub open spec fn spec_body_at(fixed: Seq<Body>, generated: Seq<Body>, i: int) -> Body {
    if i < fixed.len() {
        fixed[i]
    } else if i - fixed.len() < generated.len() {
        generated[i - fixed.len()]
    } else {
        Body::spec_null()
    }
}

/// The population of exactly `count` bodies: `fixed`, then `generated`, cut
/// off at `count` or padded with null bodies up to it.
pub open spec fn spec_population(fixed: Seq<Body>, generated: Seq<Body>, count: nat) -> Seq<Body> {
    Seq::new(count, |i: int| spec_body_at(fixed, generated, i))
}

/// Builds the population of exactly `count` bodies from the scenario's own
/// bodies and the bodies computed for it.
pub fn populate(fixed: &Vec<Body>, generated: &Vec<Body>, count: u32) -> (bodies: Vec<Body>)
    ensures
        bodies@ == spec_population(fixed@, generated@, count as nat),
        bodies@.len() == count,
{
    let wanted: usize = count as usize;
    let mut bodies: Vec<Body> = Vec::new();
    let mut i: usize = 0;
    while i < wanted
        invariant
            i <= wanted,
            wanted == count,
            bodies@.len() == i,
            forall|j: int| 0 <= j < i ==> bodies@[j] == spec_body_at(fixed@, generated@, j),
        decreases wanted - i,
    {
        let body = if i < fixed.len() {
            fixed[i]
        } else if i - fixed.len() < generated.len() {
            generated[i - fixed.len()]
        } else {
            Body::null()
        };
        bodies.push(body);
        i += 1;
    }
    assert(bodies@ =~= spec_population(fixed@, generated@, count as nat));
    bodies
}

/// A scenario: a starting population for any body count, a recommended
/// viewpoint, and text to show. A scenario has no state; what it computes in
/// floating point (orbits, random discs) is computed by the caller and handed
/// in as `generated`.
pub trait Simulation {
    /// The name shown to the user.
    spec fn spec_name(&self) -> Seq<char>;

    /// The description shown to the user.
    spec fn spec_description(&self) -> Seq<char>;

    /// How many computed bodies the scenario places in a population of
    /// `count`.
    spec fn spec_generated_count(&self, count: nat) -> nat;

    /// The starting population of `count` bodies, given the computed ones.
    spec fn spec_bodies(&self, count: nat, generated: Seq<Body>) -> Seq<Body>;

    /// Where the camera stands, `x, y, z`.
    spec fn spec_camera_position(&self) -> [u32; 3];

    /// What the camera looks at, `x, y, z`.
    spec fn spec_camera_target(&self) -> [u32; 3];

    /// Name of the scenario.
    fn name(&self) -> (name: &'static str)
        ensures
            name@ == self.spec_name(),
    ;

    /// Description of the scenario.
    fn description(&self) -> (description: &'static str)
        ensures
            description@ == self.spec_description(),
    ;

    /// How many computed bodies a population of `count` has room for; the
    /// caller computes that many and hands them to `initialize_bodies`.
    fn generated_count(&self, count: u32) -> (needed: u32)
        ensures
            needed == self.spec_generated_count(count as nat),
            needed <= count,
    ;

    /// The starting population: always exactly `count` bodies.
    fn initialize_bodies(&self, count: u32, generated: &Vec<Body>) -> (bodies: Vec<Body>)
        ensures
            bodies@ == self.spec_bodies(count as nat, generated@),
            bodies@.len() == count,
    ;

    /// Recommended camera position.
    fn camera_position(&self) -> (position: [u32; 3])
        ensures
            position == self.spec_camera_position(),
    ;

    /// Recommended camera target.
    fn camera_target(&self) -> (target: [u32; 3])
        ensures
            target == self.spec_camera_target(),
    ;
}

} // verus!
