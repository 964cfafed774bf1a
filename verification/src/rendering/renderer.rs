//! The frame orchestrator: what the host decides each frame, and what the
//! input actions change for the frames that follow.
//!
//! A frame is `update` and then `render`. `update` clamps the time step and
//! says what to upload: the fresh population, if a scenario switch is
//! pending, and the uniform block, always. `render` says what to dispatch
//! and draw, both against the bind group of the current index, and flips
//! the index for the next frame. Nothing in a frame touches the registry.

use crate::rendering::camera::{Camera, CameraModel, DragAction};
use crate::simulation::encoding::{spec_body_lanes, spec_is_native};
use crate::simulation::manager::{spec_default_scenarios, RegistryModel, SimulationManager};
use crate::simulation::resources::{
    spec_after_swaps, spec_debug_be, spec_debug_le, spec_read_slot, spec_swapped,
    spec_write_slot, BufferWrite, InitialContents, SimulationResources,
};
use crate::simulation::scalar::{min, spec_min, ZERO};
use crate::simulation::scenario::Scenario;
use crate::simulation::trait_def::Simulation;
use crate::simulation::types::{
    Body, DebugData, SimulationState, BODY_SIZE, COMPUTE_WORKGROUP_SIZE, DEBUG_SIZE, NUM_BODIES,
    STATE_SIZE,
};
use vstd::prelude::*;

verus! {

/// Pattern of `0.016`, the longest step a frame may take, in seconds.
pub const MAX_DELTA_TIME: u32 = 0x3C83_126F;

/// Pattern of `0.001`, the step the uniform block holds before the first
/// frame.
pub const INITIAL_DELTA_TIME: u32 = 0x3A83_126F;

/// Vertices drawn for each body: two triangles.
pub const VERTICES_PER_BODY: u32 = 6;

/// Workgroups that cover `bodies` bodies: the quotient by the workgroup
/// size, rounded up.
pub open spec fn spec_workgroup_count(bodies: nat) -> nat {
    ((bodies + COMPUTE_WORKGROUP_SIZE - 1) / (COMPUTE_WORKGROUP_SIZE as int)) as nat
}

/// Workgroups that cover `bodies` bodies.
pub fn workgroup_count(bodies: u32) -> (groups: u32)
    ensures
        groups == spec_workgroup_count(bodies as nat),
        groups * COMPUTE_WORKGROUP_SIZE >= bodies,
        bodies > 0 ==> (groups - 1) * COMPUTE_WORKGROUP_SIZE < bodies,
{
    let full: u32 = bodies / COMPUTE_WORKGROUP_SIZE;
    if bodies % COMPUTE_WORKGROUP_SIZE == 0 {
        full
    } else {
        full + 1
    }
}

/// The text shown when the scenario changes or the user asks for it.
#[derive(Clone, Copy, Debug, PartialEq, Eq)]
pub struct InfoLine {
    /// Name of the active scenario.
    pub name: &'static str,
    /// Its description.
    pub description: &'static str,
    /// Number of scenarios to switch between.
    pub simulation_count: usize,
}

/// What `update` asks the caller to upload before the dispatch.
#[derive(Debug, PartialEq, Eq)]
pub struct FrameUpdate {
    /// The fresh population, where a scenario switch was pending.
    pub bodies: Option<BufferWrite>,
    /// The uniform block, from the start of the uniform buffer.
    pub simulation_state: Vec<u8>,
}

/// What `render` asks the caller to encode, submit and present.
#[derive(Clone, Copy, Debug, PartialEq, Eq)]
pub struct FramePlan {
    /// The bind group of the compute dispatch and of the draw.
    pub bind_group: usize,
    /// The body buffer the dispatch reads.
    pub read_buffer: usize,
    /// The body buffer the dispatch writes, which is the one the draw shows.
    pub write_buffer: usize,
    /// Workgroups to dispatch, along x.
    pub workgroup_count: u32,
    /// Vertices of the draw.
    pub vertex_count: u32,
    /// Instances of the draw.
    pub instance_count: u32,
    /// Text to show with this frame.
    pub info: Option<InfoLine>,
}

/// What an orchestrator holds, as mathematics.
pub struct RendererModel {
    /// Width and height of the output, in pixels.
    pub size: (u32, u32),
    /// The scenario registry.
    pub registry: RegistryModel,
    /// The current index of the double buffer.
    pub current_buffer: int,
    /// The uniform block as last set.
    pub simulation_state: SimulationState,
    /// The camera.
    pub camera: CameraModel,
    /// Whether the coming frame shows the info text.
    pub show_info: bool,
    /// Whether a scenario switch waits to be uploaded.
    pub simulation_changed: bool,
}

impl RendererModel {
    /// The parts are well formed and the current index is 0 or 1.
    pub open spec fn wf(self) -> bool {
        &&& self.registry.wf()
        &&& self.camera.wf()
        &&& 0 <= self.current_buffer < 2
    }

    /// The time step after `update`: the elapsed time, at most 16 ms.
    pub open spec fn stepped(self, delta_time: u32) -> SimulationState {
        SimulationState { delta_time: spec_min(delta_time, MAX_DELTA_TIME), ..self.simulation_state }
    }

    /// The orchestrator after `update`.
    pub open spec fn updated(self, delta_time: u32) -> RendererModel {
        RendererModel {
            simulation_state: self.stepped(delta_time),
            simulation_changed: false,
            ..self
        }
    }

    /// The orchestrator after `render`.
    pub open spec fn rendered(self) -> RendererModel {
        RendererModel {
            current_buffer: spec_swapped(self.current_buffer),
            show_info: false,
            ..self
        }
    }

    /// The orchestrator after one frame.
    pub open spec fn frame(self, delta_time: u32) -> RendererModel {
        self.updated(delta_time).rendered()
    }

    /// The orchestrator after one frame for each of `steps`, in order.
    pub open spec fn frames(self, steps: Seq<u32>) -> RendererModel
        decreases steps.len(),
    {
        if steps.len() == 0 {
            self
        } else {
            self.frames(steps.drop_last()).frame(steps.last())
        }
    }

    /// The orchestrator after the registry was asked to change: where the
    /// registry moved, the switch is pending and the info text is due.
    pub open spec fn switched(self, registry: RegistryModel, moved: bool) -> RendererModel {
        if moved {
            RendererModel {
                registry: registry,
                simulation_changed: true,
                show_info: true,
                ..self
            }
        } else {
            self
        }
    }

    /// The orchestrator after an output resize that was taken.
    pub open spec fn resized(self, width: u32, height: u32, projection_matrix: [u32; 16])
        -> RendererModel {
        if width > 0 && height > 0 {
            RendererModel {
                size: (width, height),
                simulation_state: SimulationState {
                    projection_matrix: projection_matrix,
                    ..self.simulation_state
                },
                ..self
            }
        } else {
            self
        }
    }
}

/// Owns the registry, the double buffer, the uniform block and the camera.
pub struct Renderer {
    size: (u32, u32),
    simulation_resources: SimulationResources,
    simulation_state: SimulationState,
    simulation_manager: SimulationManager,
    camera: Camera,
    show_info: bool,
    simulation_changed: bool,
}

impl View for Renderer {
    type V = RendererModel;

    closed spec fn view(&self) -> RendererModel {
        RendererModel {
            size: self.size,
            registry: self.simulation_manager@,
            current_buffer: self.simulation_resources@,
            simulation_state: self.simulation_state,
            camera: self.camera@,
            show_info: self.show_info,
            simulation_changed: self.simulation_changed,
        }
    }
}

impl Renderer {
    /// The orchestrator at start, with what the GPU buffers are created
    /// with. The galaxy is active, its population built from `generated`;
    /// the camera rests at the height of the galaxy's viewpoint; the info
    /// text is due and no switch is pending.
    pub fn new(
        width: u32,
        height: u32,
        generated: &Vec<Body>,
        view_matrix: [u32; 16],
        projection_matrix: [u32; 16],
    ) -> (made: (Self, InitialContents))
        ensures
            made.0@.wf(),
            made.0@.size == (width, height),
            made.0@.registry.scenarios == spec_default_scenarios(),
            made.0@.registry.index == 0,
            made.0@.registry.bodies == Scenario::Galaxy.spec_bodies(NUM_BODIES as nat, generated@),
            made.0@.current_buffer == 0,
            made.0@.simulation_state == (SimulationState {
                delta_time: INITIAL_DELTA_TIME,
                _padding: [ZERO, ZERO, ZERO],
                view_matrix: view_matrix,
                projection_matrix: projection_matrix,
            }),
            made.0@.camera == CameraModel::initial(Scenario::Galaxy.spec_camera_position()[1]),
            made.0@.show_info,
            !made.0@.simulation_changed,
            spec_is_native(made.1.bodies@, spec_body_lanes(made.0@.registry.bodies)),
            made.1.bodies@.len() == BODY_SIZE * NUM_BODIES,
            spec_is_native(made.1.simulation_state@, made.0@.simulation_state.spec_lanes()),
            made.1.simulation_state@.len() == STATE_SIZE,
            made.1.debug@ == Seq::new(DEBUG_SIZE as nat, |i: int| 0u8),
    {
        let simulation_manager = SimulationManager::new(generated);
        let simulation_state = SimulationState {
            delta_time: INITIAL_DELTA_TIME,
            _padding: [ZERO, ZERO, ZERO],
            view_matrix,
            projection_matrix,
        };
        let (simulation_resources, contents) = SimulationResources::new(
            &simulation_manager,
            &simulation_state,
        );
        let camera_position = simulation_manager.get_current_simulation().camera_position();
        let base_camera_height = camera_position[1];
        let renderer = Renderer {
            size: (width, height),
            simulation_resources,
            simulation_state,
            simulation_manager,
            camera: Camera::new(base_camera_height),
            show_info: true,
            simulation_changed: false,
        };
        (renderer, contents)
    }

    /// Width and height of the output.
    pub fn get_size(&self) -> (size: (u32, u32))
        ensures
            size == self@.size,
    {
        self.size
    }

    /// The registry, to look at.
    pub fn simulation_manager(&self) -> (manager: &SimulationManager)
        ensures
            manager@ == self@.registry,
    {
        &self.simulation_manager
    }

    /// The double buffer, to look at.
    pub fn simulation_resources(&self) -> (resources: &SimulationResources)
        ensures
            resources@ == self@.current_buffer,
    {
        &self.simulation_resources
    }

    /// The uniform block as last set.
    pub fn simulation_state(&self) -> (state: SimulationState)
        ensures
            state == self@.simulation_state,
    {
        self.simulation_state
    }

    /// The camera, to look at.
    pub fn camera(&self) -> (camera: &Camera)
        ensures
            camera@ == self@.camera,
    {
        &self.camera
    }

    /// Whether the coming frame shows the info text.
    pub fn show_info(&self) -> (due: bool)
        ensures
            due == self@.show_info,
    {
        self.show_info
    }

    /// Whether a scenario switch waits to be uploaded.
    pub fn simulation_changed(&self) -> (pending: bool)
        ensures
            pending == self@.simulation_changed,
    {
        self.simulation_changed
    }

    /// The output was resized and `projection_matrix` is the projection for
    /// the new size. Gives the uniform block to upload. An empty size
    /// changes nothing and uploads nothing.
    pub fn resize(&mut self, width: u32, height: u32, projection_matrix: [u32; 16]) -> (upload:
        Option<Vec<u8>>)
        ensures
            final(self)@ == old(self)@.resized(width, height, projection_matrix),
            upload is Some <==> width > 0 && height > 0,
            upload matches Some(bytes) ==> spec_is_native(
                bytes@,
                final(self)@.simulation_state.spec_lanes(),
            ) && bytes@.len() == STATE_SIZE,
    {
        if width > 0 && height > 0 {
            self.size = (width, height);
            self.simulation_state.projection_matrix = projection_matrix;
            Some(self.simulation_resources.update_simulation_state(&self.simulation_state))
        } else {
            None
        }
    }

    /// First half of a frame. `delta_time` is the time since the last
    /// frame, in seconds; the step is that time, at most 16 ms. Where a
    /// scenario switch is pending the registry's population is to be
    /// written into the buffer the dispatch reads, and the switch is no
    /// longer pending. The uniform block is to be written in any case.
    pub fn update(&mut self, delta_time: u32) -> (upload: FrameUpdate)
        ensures
            final(self)@ == old(self)@.updated(delta_time),
            final(self)@.wf(),
            upload.bodies is Some <==> old(self)@.simulation_changed,
            upload.bodies matches Some(write) ==> {
                &&& write.buffer == spec_read_slot(old(self)@.current_buffer)
                &&& write.offset == 0
                &&& spec_is_native(write.bytes@, spec_body_lanes(old(self)@.registry.bodies))
                &&& write.bytes@.len() == BODY_SIZE * NUM_BODIES
            },
            spec_is_native(
                upload.simulation_state@,
                old(self)@.stepped(delta_time).spec_lanes(),
            ),
            upload.simulation_state@.len() == STATE_SIZE,
    {
        let clamped_dt = min(delta_time, MAX_DELTA_TIME);
        self.simulation_state.delta_time = clamped_dt;
        proof {
            use_type_invariant(&self.simulation_manager);
            use_type_invariant(&self.simulation_resources);
            use_type_invariant(&self.camera);
        }
        let mut write: Option<BufferWrite> = None;
        if self.simulation_changed {
            let bodies = self.simulation_manager.get_bodies();
            match self.simulation_resources.update_bodies(&bodies) {
                Ok(w) => {
                    write = Some(w);
                },
                Err(_) => {},
            }
            self.simulation_changed = false;
        }
        let simulation_state = self.simulation_resources.update_simulation_state(
            &self.simulation_state,
        );
        FrameUpdate { bodies: write, simulation_state }
    }

    /// Second half of a frame. The compute dispatch and the draw both use
    /// the bind group of the current index, so that the draw shows what the
    /// dispatch wrote. The info text is given where it is due, and is then
    /// no longer due. The current index flips for the next frame: the
    /// caller encodes, submits and presents what the plan says before it
    /// asks for that frame.
    pub fn render(&mut self) -> (plan: FramePlan)
        ensures
            final(self)@ == old(self)@.rendered(),
            final(self)@.wf(),
            plan.bind_group == old(self)@.current_buffer,
            plan.read_buffer == spec_read_slot(old(self)@.current_buffer),
            plan.write_buffer == spec_write_slot(old(self)@.current_buffer),
            plan.read_buffer != plan.write_buffer,
            plan.workgroup_count == spec_workgroup_count(NUM_BODIES as nat),
            plan.vertex_count == VERTICES_PER_BODY,
            plan.instance_count == NUM_BODIES,
            plan.info is Some <==> old(self)@.show_info,
            plan.info matches Some(line) ==> {
                &&& line.name@ == old(self)@.registry.current().spec_name()
                &&& line.description@ == old(self)@.registry.current().spec_description()
                &&& line.simulation_count == old(self)@.registry.scenarios.len()
            },
    {
        let bind_group = self.simulation_resources.current_buffer();
        proof {
            use_type_invariant(&self.simulation_manager);
            use_type_invariant(&self.camera);
        }
        let mut info: Option<InfoLine> = None;
        if self.show_info {
            let current_sim = self.simulation_manager.get_current_simulation();
            info = Some(
                InfoLine {
                    name: current_sim.name(),
                    description: current_sim.description(),
                    simulation_count: self.simulation_manager.get_simulation_count(),
                },
            );
            self.show_info = false;
        }
        self.simulation_resources.swap_buffers();
        FramePlan {
            bind_group,
            read_buffer: bind_group,
            write_buffer: 1 - bind_group,
            workgroup_count: workgroup_count(NUM_BODIES),
            vertex_count: VERTICES_PER_BODY,
            instance_count: NUM_BODIES,
            info,
        }
    }

    /// One frame: `update`, then `render`.
    pub fn on_frame(&mut self, delta_time: u32) -> (frame: (FrameUpdate, FramePlan))
        ensures
            final(self)@ == old(self)@.frame(delta_time),
            final(self)@.wf(),
            final(self)@.registry == old(self)@.registry,
            frame.0.bodies is Some <==> old(self)@.simulation_changed,
            frame.0.bodies matches Some(write) ==> {
                &&& write.buffer == spec_read_slot(old(self)@.current_buffer)
                &&& write.offset == 0
                &&& spec_is_native(write.bytes@, spec_body_lanes(old(self)@.registry.bodies))
                &&& write.bytes@.len() == BODY_SIZE * NUM_BODIES
            },
            spec_is_native(
                frame.0.simulation_state@,
                old(self)@.stepped(delta_time).spec_lanes(),
            ),
            frame.0.simulation_state@.len() == STATE_SIZE,
            frame.1.bind_group == old(self)@.current_buffer,
            frame.1.read_buffer == spec_read_slot(old(self)@.current_buffer),
            frame.1.write_buffer == spec_write_slot(old(self)@.current_buffer),
            frame.1.read_buffer != frame.1.write_buffer,
            frame.1.workgroup_count == spec_workgroup_count(NUM_BODIES as nat),
            frame.1.vertex_count == VERTICES_PER_BODY,
            frame.1.instance_count == NUM_BODIES,
            frame.1.info is Some <==> old(self)@.show_info,
            frame.1.info matches Some(line) ==> {
                &&& line.name@ == old(self)@.registry.current().spec_name()
                &&& line.description@ == old(self)@.registry.current().spec_description()
                &&& line.simulation_count == old(self)@.registry.scenarios.len()
            },
    {
        let upload = self.update(delta_time);
        let plan = self.render();
        (upload, plan)
    }

    /// Asks for the scenario at `index`. Where the registry moved, the
    /// switch is pending and the info text is due.
    pub fn switch_simulation(&mut self, index: usize, generated: &Vec<Body>)
        ensures
            final(self)@ == old(self)@.switched(
                old(self)@.registry.switch_to(index as int, generated@),
                index < old(self)@.registry.scenarios.len(),
            ),
    {
        if self.simulation_manager.switch_to_simulation(index, generated) {
            self.simulation_changed = true;
            self.show_info = true;
        }
    }

    /// Asks for the scenario after the active one.
    pub fn next_simulation(&mut self, generated: &Vec<Body>)
        ensures
            final(self)@ == old(self)@.switched(
                old(self)@.registry.next(generated@),
                old(self)@.registry.index + 1 < old(self)@.registry.scenarios.len(),
            ),
    {
        if self.simulation_manager.next_simulation(generated) {
            self.simulation_changed = true;
            self.show_info = true;
        }
    }

    /// Asks for the scenario before the active one.
    pub fn previous_simulation(&mut self, generated: &Vec<Body>)
        ensures
            final(self)@ == old(self)@.switched(
                old(self)@.registry.previous(generated@),
                old(self)@.registry.index > 0,
            ),
    {
        if self.simulation_manager.previous_simulation(generated) {
            self.simulation_changed = true;
            self.show_info = true;
        }
    }

    /// Makes the info text due with the coming frame.
    pub fn toggle_info(&mut self)
        ensures
            final(self)@ == (RendererModel { show_info: true, ..old(self)@ }),
    {
        self.show_info = true;
    }

    /// Takes the view matrix the caller derived from the camera and the
    /// viewpoint of the active scenario.
    pub fn update_camera_view(&mut self, view_matrix: [u32; 16])
        ensures
            final(self)@ == (RendererModel {
                simulation_state: SimulationState {
                    view_matrix: view_matrix,
                    ..old(self)@.simulation_state
                },
                ..old(self)@
            }),
    {
        self.simulation_state.view_matrix = view_matrix;
    }

    /// Pans the camera to `offset`.
    pub fn pan_camera(&mut self, offset: [u32; 2])
        ensures
            final(self)@ == (RendererModel {
                camera: old(self)@.camera.panned(offset),
                ..old(self)@
            }),
    {
        self.camera.pan(offset);
    }

    /// Zooms the camera by a step whose product is `scaled`.
    pub fn zoom_camera(&mut self, scaled: u32)
        ensures
            final(self)@ == (RendererModel {
                camera: old(self)@.camera.zoomed(scaled),
                ..old(self)@
            }),
    {
        self.camera.zoom(scaled);
    }

    /// Turns the camera to `rotation`, and says whether it was taken.
    pub fn rotate_camera(&mut self, rotation: u32) -> (taken: bool)
        ensures
            final(self)@ == (RendererModel {
                camera: old(self)@.camera.rotated(rotation),
                ..old(self)@
            }),
            taken == CameraModel::wrapped(rotation),
    {
        self.camera.rotate(rotation)
    }

    /// Puts the camera back at rest, at the height of the viewpoint of the
    /// active scenario.
    pub fn reset_camera(&mut self)
        ensures
            final(self)@ == (RendererModel {
                camera: CameraModel::initial(
                    old(self)@.registry.current().spec_camera_position()[1],
                ),
                ..old(self)@
            }),
    {
        let camera_position = self.simulation_manager.get_current_simulation().camera_position();
        let base_camera_height = camera_position[1];
        self.camera = Camera::new(base_camera_height);
    }

    /// The button went down.
    pub fn handle_mouse_press(&mut self, position: [u32; 2], ctrl: bool, shift: bool)
        ensures
            final(self)@ == (RendererModel {
                camera: old(self)@.camera.pressed(position, ctrl, shift),
                ..old(self)@
            }),
    {
        self.camera.handle_mouse_press(position, ctrl, shift);
    }

    /// The button was let go.
    pub fn handle_mouse_release(&mut self)
        ensures
            final(self)@ == (RendererModel { camera: old(self)@.camera.released(), ..old(self)@ }),
    {
        self.camera.handle_mouse_release();
    }

    /// The mouse moved; says what the move asks for.
    pub fn handle_mouse_move(&mut self, position: [u32; 2]) -> (action: DragAction)
        ensures
            action == old(self)@.camera.drag_action(position),
            final(self)@ == (RendererModel {
                camera: old(self)@.camera.moved(position),
                ..old(self)@
            }),
    {
        self.camera.handle_mouse_move(position)
    }

    /// The wheel turned; `scaled` is the product of the zoom step.
    pub fn handle_mouse_wheel(&mut self, scaled: u32)
        ensures
            final(self)@ == (RendererModel {
                camera: old(self)@.camera.zoomed(scaled),
                ..old(self)@
            }),
    {
        self.camera.handle_mouse_wheel(scaled);
    }

    /// The modifiers changed.
    pub fn handle_key_state(&mut self, ctrl: bool, shift: bool)
        ensures
            final(self)@ == (RendererModel {
                camera: old(self)@.camera.keyed(ctrl, shift),
                ..old(self)@
            }),
    {
        self.camera.handle_key_state(ctrl, shift);
    }

    /// The telemetry of the kernel, read back on request. `mapped` is what
    /// mapping the staging buffer gave; a failed readback gives zeroes.
    pub fn debug_compute_shader(&self, mapped: &Option<Vec<u8>>) -> (data: DebugData)
        ensures
            match mapped {
                Some(bytes) if bytes@.len() == DEBUG_SIZE => data == spec_debug_le(bytes@) || data
                    == spec_debug_be(bytes@),
                _ => data == DebugData::spec_zeroed(),
            },
    {
        self.simulation_resources.read_debug_data(mapped)
    }
}

/// Frames leave the registry alone: after any number of them it holds the
/// scenarios, the active index and the population it held before. The
/// current index has flipped once for each frame.
pub proof fn lemma_frames_keep_registry(renderer: RendererModel, steps: Seq<u32>)
    ensures
        renderer.frames(steps).registry == renderer.registry,
        renderer.frames(steps).current_buffer == spec_after_swaps(
            renderer.current_buffer,
            steps.len(),
        ),
        renderer.frames(steps).camera == renderer.camera,
        renderer.frames(steps).size == renderer.size,
    decreases steps.len(),
{
    if steps.len() > 0 {
        lemma_frames_keep_registry(renderer, steps.drop_last());
    }
}

/// A frame reads the buffer the frame before it wrote, and writes the one
/// that frame read.
pub proof fn lemma_frames_alternate(renderer: RendererModel, delta_time: u32)
    requires
        renderer.wf(),
    ensures
        renderer.frame(delta_time).wf(),
        spec_read_slot(renderer.frame(delta_time).current_buffer) == spec_write_slot(
            renderer.current_buffer,
        ),
        spec_write_slot(renderer.frame(delta_time).current_buffer) == spec_read_slot(
            renderer.current_buffer,
        ),
{
}

/// Once a frame has run no switch is pending, so the frames after it upload
/// no population until the registry is asked to change again.
pub proof fn lemma_frame_clears_pending(renderer: RendererModel, delta_time: u32)
    ensures
        !renderer.frame(delta_time).simulation_changed,
        !renderer.frame(delta_time).show_info,
{
}

} // verus!
