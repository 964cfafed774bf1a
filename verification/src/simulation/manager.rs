//! The scenario registry: the scenarios on offer, the one that is active,
//! and the population it started with.

use crate::simulation::scenario::Scenario;
use crate::simulation::trait_def::Simulation;
use crate::simulation::types::{Body, NUM_BODIES};
use vstd::prelude::*;

verus! {

/// What a registry holds, as mathematics.
pub struct RegistryModel {
    /// The scenarios on offer, in the order they are switched through.
    pub scenarios: Seq<Scenario>,
    /// Place of the active scenario in `scenarios`.
    pub index: int,
    /// The population the active scenario started with.
    pub bodies: Seq<Body>,
}

impl RegistryModel {
    /// A scenario is active and the population is complete.
    pub open spec fn wf(self) -> bool {
        &&& 0 <= self.index < self.scenarios.len()
        &&& self.bodies.len() == NUM_BODIES
    }

    /// The active scenario.
    pub open spec fn current(self) -> Scenario {
        self.scenarios[self.index]
    }

    /// The registry after a request for the scenario at `index`: where
    /// there is one it becomes active and its fresh population replaces the
    /// held one whole; where there is none nothing changes.
    pub open spec fn switch_to(self, index: int, generated: Seq<Body>) -> RegistryModel {
        if 0 <= index < self.scenarios.len() {
            RegistryModel {
                scenarios: self.scenarios,
                index: index,
                bodies: self.scenarios[index].spec_bodies(NUM_BODIES as nat, generated),
            }
        } else {
            self
        }
    }

    /// The registry after a request for the scenario that follows the
    /// active one; nothing changes at the last one.
    pub open spec fn next(self, generated: Seq<Body>) -> RegistryModel {
        if self.index + 1 < self.scenarios.len() {
            self.switch_to(self.index + 1, generated)
        } else {
            self
        }
    }

    /// The registry after a request for the scenario before the active
    /// one; nothing changes at the first one.
    pub open spec fn previous(self, generated: Seq<Body>) -> RegistryModel {
        if self.index > 0 {
            self.switch_to(self.index - 1, generated)
        } else {
            self
        }
    }
}

/// The scenarios a registry starts with, the first of them active.
pub open spec fn spec_default_scenarios() -> Seq<Scenario> {
    seq![Scenario::Galaxy, Scenario::EarthMoon, Scenario::SolarSystem]
}

/// Owns the scenarios and the population of the active one.
pub struct SimulationManager {
    simulations: Vec<Scenario>,
    current_simulation_index: usize,
    bodies: Vec<Body>,
}

impl View for SimulationManager {
    type V = RegistryModel;

    closed spec fn view(&self) -> RegistryModel {
        RegistryModel {
            scenarios: self.simulations@,
            index: self.current_simulation_index as int,
            bodies: self.bodies@,
        }
    }
}

impl SimulationManager {
    /// What holds of every registry: a scenario is active and the
    /// population is complete.
    #[verifier::type_invariant]
    pub open spec fn well_formed(&self) -> bool {
        self@.wf()
    }

    /// A registry of the galaxy, the Earth-Moon system and the solar
    /// system, the galaxy active, its population built from `generated`.
    pub fn new(generated: &Vec<Body>) -> (manager: Self)
        ensures
            manager@.scenarios == spec_default_scenarios(),
            manager@.index == 0,
            manager@.bodies == Scenario::Galaxy.spec_bodies(NUM_BODIES as nat, generated@),
            manager@.wf(),
    {
        let mut simulations: Vec<Scenario> = Vec::new();
        simulations.push(Scenario::Galaxy);
        simulations.push(Scenario::EarthMoon);
        simulations.push(Scenario::SolarSystem);
        assert(simulations@ =~= spec_default_scenarios());
        let bodies = simulations[0].initialize_bodies(NUM_BODIES, generated);
        Self { simulations, current_simulation_index: 0, bodies }
    }

    /// The active scenario.
    pub fn get_current_simulation(&self) -> (scenario: Scenario)
        ensures
            scenario == self@.current(),
    {
        proof {
            use_type_invariant(self);
        }
        self.simulations[self.current_simulation_index]
    }

    /// Place of the active scenario.
    pub fn get_current_index(&self) -> (index: usize)
        ensures
            index == self@.index,
            self@.wf(),
    {
        proof {
            use_type_invariant(self);
        }
        self.current_simulation_index
    }

    /// The scenario at `index`, if there is one.
    pub fn get_simulation(&self, index: usize) -> (scenario: Option<Scenario>)
        ensures
            scenario == if index < self@.scenarios.len() {
                Some(self@.scenarios[index as int])
            } else {
                None
            },
    {
        if index < self.simulations.len() {
            Some(self.simulations[index])
        } else {
            None
        }
    }

    /// Number of scenarios on offer.
    pub fn get_simulation_count(&self) -> (count: usize)
        ensures
            count == self@.scenarios.len(),
            count >= 1,
    {
        proof {
            use_type_invariant(self);
        }
        self.simulations.len()
    }

    /// A copy of the held population.
    pub fn get_bodies(&self) -> (bodies: Vec<Body>)
        ensures
            bodies@ == self@.bodies,
            bodies@.len() == NUM_BODIES,
    {
        proof {
            use_type_invariant(self);
        }
        let mut bodies: Vec<Body> = Vec::new();
        let mut i: usize = 0;
        while i < self.bodies.len()
            invariant
                i <= self.bodies@.len(),
                bodies@ == self.bodies@.take(i as int),
            decreases self.bodies@.len() - i,
        {
            bodies.push(self.bodies[i]);
            assert(self.bodies@.take(i as int).push(self.bodies@[i as int]) =~= self.bodies@.take(
                i + 1,
            ));
            i += 1;
        }
        assert(self.bodies@.take(self.bodies@.len() as int) =~= self.bodies@);
        bodies
    }

    /// Makes the following scenario active and takes its fresh population.
    /// At the last scenario nothing happens and `false` comes back.
    pub fn next_simulation(&mut self, generated: &Vec<Body>) -> (switched: bool)
        ensures
            final(self)@ == old(self)@.next(generated@),
            switched == (old(self)@.index + 1 < old(self)@.scenarios.len()),
            final(self)@.wf(),
    {
        proof {
            use_type_invariant(&*self);
        }
        if self.current_simulation_index < self.simulations.len() - 1 {
            self.current_simulation_index += 1;
            self.reinitialize_bodies(generated);
            true
        } else {
            false
        }
    }

    /// Makes the scenario before the active one active and takes its fresh
    /// population. At the first scenario nothing happens and `false` comes
    /// back.
    pub fn previous_simulation(&mut self, generated: &Vec<Body>) -> (switched: bool)
        ensures
            final(self)@ == old(self)@.previous(generated@),
            switched == (old(self)@.index > 0),
            final(self)@.wf(),
    {
        proof {
            use_type_invariant(&*self);
        }
        if self.current_simulation_index > 0 {
            self.current_simulation_index -= 1;
            self.reinitialize_bodies(generated);
            true
        } else {
            false
        }
    }

    /// Makes the scenario at `index` active and takes its fresh population.
    /// Where there is no such scenario nothing happens and `false` comes
    /// back.
    pub fn switch_to_simulation(&mut self, index: usize, generated: &Vec<Body>) -> (switched: bool)
        ensures
            final(self)@ == old(self)@.switch_to(index as int, generated@),
            switched == (index < old(self)@.scenarios.len()),
            final(self)@.wf(),
    {
        proof {
            use_type_invariant(&*self);
        }
        if index < self.simulations.len() {
            self.current_simulation_index = index;
            self.reinitialize_bodies(generated);
            true
        } else {
            false
        }
    }

    /// Replaces the held population by a fresh one of the active scenario.
    fn reinitialize_bodies(&mut self, generated: &Vec<Body>)
        ensures
            final(self)@ == old(self)@.switch_to(old(self)@.index, generated@),
            final(self)@.wf(),
    {
        proof {
            use_type_invariant(&*self);
        }
        let new_bodies = self.simulations[self.current_simulation_index].initialize_bodies(
            NUM_BODIES,
            generated,
        );
        self.bodies = new_bodies;
    }
}

/// Stepping forward and straight back restores the active scenario, and
/// leaves the population that scenario starts with. This holds where the
/// step forward moved, and at a registry of one scenario, where neither step
/// moves.
pub proof fn lemma_next_then_previous(
    registry: RegistryModel,
    forward: Seq<Body>,
    back: Seq<Body>,
)
    requires
        registry.wf(),
        registry.index + 1 < registry.scenarios.len() || registry.scenarios.len() == 1,
    ensures
        registry.next(forward).previous(back).index == registry.index,
        registry.next(forward).previous(back).scenarios == registry.scenarios,
        registry.index + 1 < registry.scenarios.len() ==> registry.next(forward).previous(
            back,
        ).bodies == registry.current().spec_bodies(NUM_BODIES as nat, back),
        registry.scenarios.len() == 1 ==> registry.next(forward).previous(back) == registry,
        registry.next(forward).previous(back).wf(),
{
}

} // verus!
