//! Which buffer stands at which binding of the two bind groups.
//!
//! The kernel reads the bodies at one binding and writes them at another;
//! the vertex stage draws from the binding the kernel wrote, so a frame
//! shows the step it has just computed.

use crate::simulation::resources::{spec_read_slot, spec_write_slot};
use vstd::prelude::*;

verus! {

/// Binding of the bodies a dispatch reads.
pub const BODIES_IN_BINDING: u32 = 0;

/// Binding of the bodies a dispatch writes and the vertex stage draws.
pub const BODIES_OUT_BINDING: u32 = 1;

/// Binding of the uniform block.
pub const SIMULATION_STATE_BINDING: u32 = 2;

/// Binding of the telemetry the kernel leaves behind.
pub const DEBUG_BINDING: u32 = 3;

/// How a shader may use the buffer at a binding.
#[derive(Clone, Copy, Debug, PartialEq, Eq)]
pub enum BufferAccess {
    /// Storage the shader only reads.
    ReadOnlyStorage,
    /// Storage the shader reads and writes.
    Storage,
    /// A uniform block.
    Uniform,
}

/// One entry of the bind group layout.
#[derive(Clone, Copy, Debug, PartialEq, Eq)]
pub struct LayoutEntry {
    pub binding: u32,
    /// Visible to the compute stage.
    pub compute: bool,
    /// Visible to the vertex stage.
    pub vertex: bool,
    pub access: BufferAccess,
}

/// A buffer that can be bound.
#[derive(Clone, Copy, Debug, PartialEq, Eq)]
pub enum BoundBuffer {
    /// One of the two body buffers, 0 or 1.
    Bodies(usize),
    /// The uniform buffer.
    SimulationState,
    /// The debug buffer.
    Debug,
}

/// One entry of a bind group: the whole of `buffer` at `binding`.
#[derive(Clone, Copy, Debug, PartialEq, Eq)]
pub struct GroupEntry {
    pub binding: u32,
    pub buffer: BoundBuffer,
}

/// The entries of bind group `group`: it reads body buffer `group`, writes
/// the other one, sees the uniform block and writes the telemetry.
pub open spec fn spec_bind_group(group: int) -> [GroupEntry; 4] {
    [
        GroupEntry {
            binding: BODIES_IN_BINDING,
            buffer: BoundBuffer::Bodies(spec_read_slot(group) as usize),
        },
        GroupEntry {
            binding: BODIES_OUT_BINDING,
            buffer: BoundBuffer::Bodies(spec_write_slot(group) as usize),
        },
        GroupEntry { binding: SIMULATION_STATE_BINDING, buffer: BoundBuffer::SimulationState },
        GroupEntry { binding: DEBUG_BINDING, buffer: BoundBuffer::Debug },
    ]
}

/// The layout both bind groups share.
pub open spec fn spec_layout() -> [LayoutEntry; 4] {
    [
        LayoutEntry {
            binding: BODIES_IN_BINDING,
            compute: true,
            vertex: true,
            access: BufferAccess::ReadOnlyStorage,
        },
        LayoutEntry {
            binding: BODIES_OUT_BINDING,
            compute: true,
            vertex: true,
            access: BufferAccess::Storage,
        },
        LayoutEntry {
            binding: SIMULATION_STATE_BINDING,
            compute: true,
            vertex: true,
            access: BufferAccess::Uniform,
        },
        LayoutEntry {
            binding: DEBUG_BINDING,
            compute: true,
            vertex: false,
            access: BufferAccess::Storage,
        },
    ]
}

/// The binding layout of the kernel and the two bind groups made for it.
#[derive(Clone, Copy, Debug, PartialEq, Eq)]
pub struct RenderConfig {
    /// The layout both bind groups share.
    pub bind_group_layout: [LayoutEntry; 4],
}

impl RenderConfig {
    /// The configuration of the kernel.
    pub fn new() -> (config: Self)
        ensures
            config.bind_group_layout == spec_layout(),
    {
        RenderConfig {
            bind_group_layout: [
                LayoutEntry {
                    binding: BODIES_IN_BINDING,
                    compute: true,
                    vertex: true,
                    access: BufferAccess::ReadOnlyStorage,
                },
                LayoutEntry {
                    binding: BODIES_OUT_BINDING,
                    compute: true,
                    vertex: true,
                    access: BufferAccess::Storage,
                },
                LayoutEntry {
                    binding: SIMULATION_STATE_BINDING,
                    compute: true,
                    vertex: true,
                    access: BufferAccess::Uniform,
                },
                LayoutEntry {
                    binding: DEBUG_BINDING,
                    compute: true,
                    vertex: false,
                    access: BufferAccess::Storage,
                },
            ],
        }
    }

    /// The two bind groups, made once: group 0 and group 1.
    pub fn create_bind_groups(&self) -> (groups: [[GroupEntry; 4]; 2])
        ensures
            groups[0] == spec_bind_group(0),
            groups[1] == spec_bind_group(1),
    {
        [
            [
                GroupEntry { binding: BODIES_IN_BINDING, buffer: BoundBuffer::Bodies(0) },
                GroupEntry { binding: BODIES_OUT_BINDING, buffer: BoundBuffer::Bodies(1) },
                GroupEntry {
                    binding: SIMULATION_STATE_BINDING,
                    buffer: BoundBuffer::SimulationState,
                },
                GroupEntry { binding: DEBUG_BINDING, buffer: BoundBuffer::Debug },
            ],
            [
                GroupEntry { binding: BODIES_IN_BINDING, buffer: BoundBuffer::Bodies(1) },
                GroupEntry { binding: BODIES_OUT_BINDING, buffer: BoundBuffer::Bodies(0) },
                GroupEntry {
                    binding: SIMULATION_STATE_BINDING,
                    buffer: BoundBuffer::SimulationState,
                },
                GroupEntry { binding: DEBUG_BINDING, buffer: BoundBuffer::Debug },
            ],
        ]
    }
}

/// In each bind group the body buffer bound for reading is not the one
/// bound for writing, and what one group reads the other writes.
pub proof fn lemma_bind_groups_alternate(group: int)
    requires
        0 <= group < 2,
    ensures
        spec_bind_group(group)[0].buffer != spec_bind_group(group)[1].buffer,
        spec_bind_group(group)[0].buffer == spec_bind_group(1 - group)[1].buffer,
        spec_bind_group(group)[1].buffer == spec_bind_group(1 - group)[0].buffer,
{
}

} // verus!
