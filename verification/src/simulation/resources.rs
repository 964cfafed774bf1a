//! The two body buffers and the index that says which one a frame reads.
//!
//! Bind group 0 reads buffer 0 and writes buffer 1; bind group 1 reads
//! buffer 1 and writes buffer 0. The current index picks the bind group of a
//! frame, for its compute dispatch and for its draw alike, and flips once the
//! frame is done, so that the next frame reads what this one wrote.

use crate::simulation::encoding::{
    decode_debug_lanes, encode_bodies, encode_state, spec_be_lanes, spec_body_lanes,
    spec_is_native, spec_le_lanes,
};
use crate::simulation::manager::SimulationManager;
use crate::simulation::types::{
    Body, DebugData, SimulationState, BODY_SIZE, DEBUG_SIZE, NUM_BODIES, STATE_SIZE,
};
use vstd::prelude::*;

verus! {

/// The buffer that bind group `group` reads.
pub open spec fn spec_read_slot(group: int) -> int {
    group
}

/// The buffer that bind group `group` writes.
pub open spec fn spec_write_slot(group: int) -> int {
    1 - group
}

/// The current index after one swap.
pub open spec fn spec_swapped(index: int) -> int {
    1 - index
}

/// The current index after `swaps` swaps.
pub open spec fn spec_after_swaps(index: int, swaps: nat) -> int
    decreases swaps,
{
    if swaps == 0 {
        index
    } else {
        spec_swapped(spec_after_swaps(index, (swaps - 1) as nat))
    }
}

/// The telemetry that thirty-two bytes hold, read least significant byte
/// first.
pub open spec fn spec_debug_le(bytes: Seq<u8>) -> DebugData {
    DebugData::spec_from_lanes(spec_le_lanes(bytes))
}

/// The telemetry that thirty-two bytes hold, read most significant byte
/// first.
pub open spec fn spec_debug_be(bytes: Seq<u8>) -> DebugData {
    DebugData::spec_from_lanes(spec_be_lanes(bytes))
}

/// No bind group reads the buffer it writes, and both are real buffers.
pub proof fn lemma_no_aliasing(group: int)
    requires
        0 <= group < 2,
    ensures
        spec_read_slot(group) != spec_write_slot(group),
        0 <= spec_read_slot(group) < 2,
        0 <= spec_write_slot(group) < 2,
{
}

/// After a swap the frame reads the buffer the frame before it wrote, and
/// writes the one that frame read.
pub proof fn lemma_swap_hands_over(index: int)
    requires
        0 <= index < 2,
    ensures
        0 <= spec_swapped(index) < 2,
        spec_read_slot(spec_swapped(index)) == spec_write_slot(index),
        spec_write_slot(spec_swapped(index)) == spec_read_slot(index),
{
}

/// After `swaps` swaps the index has moved by `swaps` modulo two; from the
/// initial index 0 it is `swaps % 2`.
pub proof fn lemma_swaps_parity(index: int, swaps: nat)
    requires
        0 <= index < 2,
    ensures
        spec_after_swaps(index, swaps) == (index + swaps) % 2,
        spec_after_swaps(0, swaps) == swaps % 2,
    decreases swaps,
{
    if swaps > 0 {
        lemma_swaps_parity(index, (swaps - 1) as nat);
        lemma_swaps_parity(0, (swaps - 1) as nat);
    }
}

/// Bytes to write into one of the two body buffers.
#[derive(Debug, PartialEq, Eq)]
pub struct BufferWrite {
    /// Which body buffer, 0 or 1.
    pub buffer: usize,
    /// Where in the buffer the bytes go.
    pub offset: u64,
    /// The bytes.
    pub bytes: Vec<u8>,
}

/// What the three GPU buffers hold when they are created.
#[derive(Debug, PartialEq, Eq)]
pub struct InitialContents {
    /// Contents of each of the two body buffers.
    pub bodies: Vec<u8>,
    /// Contents of the uniform buffer.
    pub simulation_state: Vec<u8>,
    /// Contents of the debug buffer.
    pub debug: Vec<u8>,
}

/// Why a push was turned down.
#[derive(Clone, Copy, Debug, PartialEq, Eq)]
pub enum ResourceError {
    /// The population pushed does not have `NUM_BODIES` bodies.
    WrongBodyCount { expected: usize, found: usize },
}

/// The host's side of the double buffer.
pub struct SimulationResources {
    current_buffer: usize,
}

impl View for SimulationResources {
    type V = int;

    /// The current index.
    closed spec fn view(&self) -> int {
        self.current_buffer as int
    }
}

impl SimulationResources {
    /// What holds of every double buffer: the current index is 0 or 1.
    #[verifier::type_invariant]
    pub open spec fn well_formed(&self) -> bool {
        0 <= self@ < 2
    }

    /// The resources at start: the current index is 0, both body buffers
    /// hold the registry's population, the uniform buffer holds
    /// `simulation_state`, and the debug buffer holds zeroes.
    pub fn new(simulation_manager: &SimulationManager, simulation_state: &SimulationState) -> (made:
        (Self, InitialContents))
        ensures
            made.0@ == 0,
            spec_is_native(made.1.bodies@, spec_body_lanes(simulation_manager@.bodies)),
            made.1.bodies@.len() == BODY_SIZE * NUM_BODIES,
            spec_is_native(made.1.simulation_state@, simulation_state.spec_lanes()),
            made.1.simulation_state@.len() == STATE_SIZE,
            made.1.debug@ == Seq::new(DEBUG_SIZE as nat, |i: int| 0u8),
    {
        let bodies = simulation_manager.get_bodies();
        let mut debug: Vec<u8> = Vec::new();
        let mut i: usize = 0;
        while i < DEBUG_SIZE
            invariant
                i <= DEBUG_SIZE,
                debug@ == Seq::new(i as nat, |j: int| 0u8),
            decreases DEBUG_SIZE - i,
        {
            debug.push(0);
            assert(debug@ =~= Seq::new((i + 1) as nat, |j: int| 0u8));
            i += 1;
        }
        let contents = InitialContents {
            bodies: encode_bodies(&bodies),
            simulation_state: encode_state(simulation_state),
            debug,
        };
        (Self { current_buffer: 0 }, contents)
    }

    /// The current index: the bind group of this frame, and the body buffer
    /// it reads.
    pub fn current_buffer(&self) -> (index: usize)
        ensures
            index == self@,
            index < 2,
    {
        proof {
            use_type_invariant(self);
        }
        self.current_buffer
    }

    /// The write that puts `bodies` into the buffer the coming dispatch
    /// reads. A population of any other length than `NUM_BODIES` is turned
    /// down.
    pub fn update_bodies(&self, bodies: &Vec<Body>) -> (write: Result<BufferWrite, ResourceError>)
        ensures
            bodies@.len() != NUM_BODIES ==> write == Err::<BufferWrite, ResourceError>(
                ResourceError::WrongBodyCount { expected: NUM_BODIES as usize, found: bodies.len() },
            ),
            bodies@.len() == NUM_BODIES ==> (write matches Ok(w) && {
                &&& w.buffer == spec_read_slot(self@)
                &&& w.offset == 0
                &&& spec_is_native(w.bytes@, spec_body_lanes(bodies@))
                &&& w.bytes@.len() == BODY_SIZE * NUM_BODIES
            }),
    {
        proof {
            use_type_invariant(self);
        }
        if bodies.len() != NUM_BODIES as usize {
            return Err(
                ResourceError::WrongBodyCount { expected: NUM_BODIES as usize, found: bodies.len() },
            );
        }
        Ok(BufferWrite { buffer: self.current_buffer, offset: 0, bytes: encode_bodies(bodies) })
    }

    /// The bytes that the uniform buffer is overwritten with, from its
    /// start.
    pub fn update_simulation_state(&self, simulation_state: &SimulationState) -> (bytes: Vec<u8>)
        ensures
            spec_is_native(bytes@, simulation_state.spec_lanes()),
            bytes@.len() == STATE_SIZE,
    {
        encode_state(simulation_state)
    }

    /// Flips the current index. Called once for each frame, after it is
    /// presented.
    pub fn swap_buffers(&mut self)
        ensures
            final(self)@ == spec_swapped(old(self)@),
            0 <= final(self)@ < 2,
    {
        proof {
            use_type_invariant(&*self);
        }
        self.current_buffer = 1 - self.current_buffer;
    }

    /// The telemetry read back from the staging buffer. `mapped` is what the
    /// map request gave: the bytes, or nothing where it failed. A failed
    /// request, and bytes that are not one `DebugData` long, give the zeroed
    /// value.
    pub fn read_debug_data(&self, mapped: &Option<Vec<u8>>) -> (data: DebugData)
        ensures
            match mapped {
                Some(bytes) if bytes@.len() == DEBUG_SIZE => data == spec_debug_le(bytes@) || data
                    == spec_debug_be(bytes@),
                _ => data == DebugData::spec_zeroed(),
            },
    {
        match mapped {
            Some(bytes) => match decode_debug_lanes(bytes) {
                Some(lanes) => DebugData::from_lanes(&lanes),
                None => DebugData::zeroed(),
            },
            None => DebugData::zeroed(),
        }
    }
}

} // verus!
