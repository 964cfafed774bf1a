//! The value types shared with the GPU kernel.
//!
//! Each is a fixed run of 32-bit lanes, tightly packed and a multiple of
//! sixteen bytes long, because the kernel addresses them by byte offset.

use vstd::prelude::*;

verus! {

/// Number of bodies in every population; the kernel never branches on it.
pub const NUM_BODIES: u32 = 1024;

/// Invocations per compute workgroup.
pub const COMPUTE_WORKGROUP_SIZE: u32 = 64;

/// 32-bit lanes in one [`Body`].
pub const LANES_PER_BODY: usize = 12;

/// Bytes in one [`Body`].
pub const BODY_SIZE: usize = 48;

/// 32-bit lanes in one [`SimulationState`].
pub const LANES_PER_STATE: usize = 36;

/// Bytes in one [`SimulationState`].
pub const STATE_SIZE: usize = 144;

/// 32-bit lanes in one [`DebugData`].
pub const LANES_PER_DEBUG: usize = 8;

/// Bytes in one [`DebugData`].
pub const DEBUG_SIZE: usize = 32;

/// Every type is a whole number of four-byte lanes and a whole number of
/// sixteen-byte rows, and a buffer of `NUM_BODIES` bodies fits a 32-bit
/// size.
pub proof fn lemma_layout()
    ensures
        BODY_SIZE == 4 * LANES_PER_BODY,
        STATE_SIZE == 4 * LANES_PER_STATE,
        DEBUG_SIZE == 4 * LANES_PER_DEBUG,
        BODY_SIZE % 16 == 0,
        STATE_SIZE % 16 == 0,
        DEBUG_SIZE % 16 == 0,
        BODY_SIZE * NUM_BODIES <= u32::MAX,
{
}

/// One point mass. Every lane is a binary32 pattern.
#[derive(Clone, Copy, Debug, PartialEq, Eq)]
pub struct Body {
    /// `x, y, z` and, in the fourth lane, the mass.
    pub position: [u32; 4],
    /// `vx, vy, vz` and, in the fourth lane, the visual radius.
    pub velocity: [u32; 4],
    /// `r, g, b, a`.
    pub color: [u32; 4],
}

impl Body {
    /// The body that pads a population: no mass, no radius, transparent.
    pub open spec fn spec_null() -> Body {
        Body {
            position: [0u32, 0u32, 0u32, 0u32],
            velocity: [0u32, 0u32, 0u32, 0u32],
            color: [0u32, 0u32, 0u32, 0u32],
        }
    }

    /// The twelve lanes in the order the kernel reads them.
    pub open spec fn spec_lanes(self) -> Seq<u32> {
        self.position@ + self.velocity@ + self.color@
    }

    /// The body that pads a population.
    #[verifier::when_used_as_spec(spec_null)]
    pub fn null() -> (body: Body)
        ensures
            body == Body::spec_null(),
    {
        Body { position: [0, 0, 0, 0], velocity: [0, 0, 0, 0], color: [0, 0, 0, 0] }
    }

    /// Appends the twelve lanes of the body to `lanes`.
    pub fn push_lanes(&self, lanes: &mut Vec<u32>)
        ensures
            final(lanes)@ == old(lanes)@ + self.spec_lanes(),
    {
        let ghost before = lanes@;
        let mut i: usize = 0;
        while i < 4
            invariant
                i <= 4,
                lanes@ == before + self.position@.take(i as int),
            decreases 4 - i,
        {
            lanes.push(self.position[i]);
            i += 1;
        }
        assert(self.position@.take(4) == self.position@);
        let ghost before = lanes@;
        let mut i: usize = 0;
        while i < 4
            invariant
                i <= 4,
                lanes@ == before + self.velocity@.take(i as int),
            decreases 4 - i,
        {
            lanes.push(self.velocity[i]);
            i += 1;
        }
        assert(self.velocity@.take(4) == self.velocity@);
        let ghost before = lanes@;
        let mut i: usize = 0;
        while i < 4
            invariant
                i <= 4,
                lanes@ == before + self.color@.take(i as int),
            decreases 4 - i,
        {
            lanes.push(self.color[i]);
            i += 1;
        }
        assert(self.color@.take(4) == self.color@);
    }
}

/// The uniform block the kernel and the vertex stage read each frame.
#[derive(Clone, Copy, Debug, PartialEq, Eq)]
pub struct SimulationState {
    /// Length of the step, in seconds.
    pub delta_time: u32,
    /// Keeps the matrices on a sixteen-byte boundary.
    pub _padding: [u32; 3],
    /// View matrix, by columns.
    pub view_matrix: [u32; 16],
    /// Projection matrix, by columns.
    pub projection_matrix: [u32; 16],
}

impl SimulationState {
    /// The thirty-six lanes in the order the kernel reads them.
    pub open spec fn spec_lanes(self) -> Seq<u32> {
        seq![self.delta_time] + self._padding@ + self.view_matrix@ + self.projection_matrix@
    }

    /// The lanes of the block, in order.
    pub fn lanes(&self) -> (lanes: Vec<u32>)
        ensures
            lanes@ == self.spec_lanes(),
            lanes@.len() == LANES_PER_STATE,
    {
        let mut lanes: Vec<u32> = Vec::new();
        lanes.push(self.delta_time);
        let ghost before = lanes@;
        let mut i: usize = 0;
        while i < 3
            invariant
                i <= 3,
                lanes@ == before + self._padding@.take(i as int),
            decreases 3 - i,
        {
            lanes.push(self._padding[i]);
            i += 1;
        }
        assert(self._padding@.take(3) == self._padding@);
        let ghost before = lanes@;
        let mut i: usize = 0;
        while i < 16
            invariant
                i <= 16,
                lanes@ == before + self.view_matrix@.take(i as int),
            decreases 16 - i,
        {
            lanes.push(self.view_matrix[i]);
            i += 1;
        }
        assert(self.view_matrix@.take(16) == self.view_matrix@);
        let ghost before = lanes@;
        let mut i: usize = 0;
        while i < 16
            invariant
                i <= 16,
                lanes@ == before + self.projection_matrix@.take(i as int),
            decreases 16 - i,
        {
            lanes.push(self.projection_matrix[i]);
            i += 1;
        }
        assert(self.projection_matrix@.take(16) == self.projection_matrix@);
        lanes
    }
}

/// Telemetry the kernel leaves in a GPU-only buffer.
#[derive(Clone, Copy, Debug, PartialEq, Eq)]
pub struct DebugData {
    /// Iterations the kernel has counted.
    pub iterations: u32,
    /// Keeps `particle_info` on a sixteen-byte boundary.
    pub _padding: [u32; 3],
    /// Position of the tracked particle and, in the fourth lane, its
    /// acceleration; binary32 patterns.
    pub particle_info: [u32; 4],
}

impl DebugData {
    /// The all-zero value reported when a readback fails.
    pub open spec fn spec_zeroed() -> DebugData {
        DebugData {
            iterations: 0,
            _padding: [0u32, 0u32, 0u32],
            particle_info: [0u32, 0u32, 0u32, 0u32],
        }
    }

    /// The value whose eight lanes, in order, are `lanes`.
    pub open spec fn spec_from_lanes(lanes: Seq<u32>) -> DebugData {
        DebugData {
            iterations: lanes[0],
            _padding: [lanes[1], lanes[2], lanes[3]],
            particle_info: [lanes[4], lanes[5], lanes[6], lanes[7]],
        }
    }

    /// The all-zero value.
    #[verifier::when_used_as_spec(spec_zeroed)]
    pub fn zeroed() -> (data: DebugData)
        ensures
            data == DebugData::spec_zeroed(),
    {
        DebugData { iterations: 0, _padding: [0, 0, 0], particle_info: [0, 0, 0, 0] }
    }

    /// Reads the value out of its eight lanes.
    pub fn from_lanes(lanes: &[u32; 8]) -> (data: DebugData)
        ensures
            data == DebugData::spec_from_lanes(lanes@),
    {
        DebugData {
            iterations: lanes[0],
            _padding: [lanes[1], lanes[2], lanes[3]],
            particle_info: [lanes[4], lanes[5], lanes[6], lanes[7]],
        }
    }
}

} // verus!
