//! The camera: pan, zoom and rotation, steered by mouse drags.
//!
//! The camera keeps its numbers as binary32 patterns and decides on them;
//! the arithmetic that turns a mouse delta into a new offset, zoom or
//! rotation is the caller's, who hands over the number it arrived at.

use crate::simulation::scalar::{clamp, is_nan, spec_clamp, spec_is_nan, spec_less, ONE, ZERO};
use vstd::prelude::*;

verus! {

/// Pattern of `0.1`, the smallest zoom.
pub const ZOOM_MIN: u32 = 0x3DCC_CCCD;

/// Pattern of `10.0`, the largest zoom.
pub const ZOOM_MAX: u32 = 0x4120_0000;

/// Pattern of a full turn, two pi.
pub const FULL_TURN: u32 = 0x40C9_0FDB;

/// What a mouse move asks of the caller.
#[derive(Clone, Copy, Debug, PartialEq, Eq)]
pub enum DragAction {
    /// Nothing: no button is down, or no modifier is held.
    Idle,
    /// Pan by the move from `from` to `to`, both in pixels.
    Pan { from: [u32; 2], to: [u32; 2] },
    /// Rotate by the horizontal part of the move from `from` to `to`.
    Rotate { from: [u32; 2], to: [u32; 2] },
}

/// What a camera holds, as a plain value.
#[derive(Clone, Copy, Debug, PartialEq, Eq)]
pub struct CameraModel {
    /// Pan along x and z.
    pub offset: [u32; 2],
    /// Zoom factor.
    pub zoom: u32,
    /// Rotation about the vertical axis, in radians.
    pub rotation: u32,
    /// Height of the camera at zoom one.
    pub base_height: u32,
    /// Whether the mouse button is down.
    pub mouse_pressed: bool,
    /// Where the mouse was at the last press or drag step, in pixels.
    pub last_mouse_position: [u32; 2],
    /// Whether the pan modifier is held.
    pub ctrl_pressed: bool,
    /// Whether the rotate modifier is held.
    pub shift_pressed: bool,
}

impl CameraModel {
    /// The zoom lies in `0.1 ..= 10.0` and the rotation in `0 .. 2 pi`.
    pub open spec fn wf(self) -> bool {
        &&& ZOOM_MIN <= self.zoom <= ZOOM_MAX
        &&& self.rotation < FULL_TURN
    }

    /// The camera at rest over a scenario whose viewpoint is `base_height`
    /// high: no pan, zoom one, no rotation, no drag under way.
    pub open spec fn initial(base_height: u32) -> CameraModel {
        CameraModel {
            offset: [ZERO, ZERO],
            zoom: ONE,
            rotation: ZERO,
            base_height: base_height,
            mouse_pressed: false,
            last_mouse_position: [ZERO, ZERO],
            ctrl_pressed: false,
            shift_pressed: false,
        }
    }

    /// The camera after a pan that arrives at `offset`.
    pub open spec fn panned(self, offset: [u32; 2]) -> CameraModel {
        CameraModel { offset: offset, ..self }
    }

    /// The camera after a zoom step whose product is `scaled`: the product
    /// clamped into `0.1 ..= 10.0`; a NaN changes nothing.
    pub open spec fn zoomed(self, scaled: u32) -> CameraModel {
        if spec_is_nan(scaled) {
            self
        } else {
            CameraModel { zoom: spec_clamp(scaled, ZOOM_MIN, ZOOM_MAX), ..self }
        }
    }

    /// Whether `rotation` is wrapped: in `0 .. 2 pi`.
    pub open spec fn wrapped(rotation: u32) -> bool {
        rotation < FULL_TURN
    }

    /// The camera after a rotation that arrives at `rotation`; one that is
    /// not wrapped changes nothing.
    pub open spec fn rotated(self, rotation: u32) -> CameraModel {
        if Self::wrapped(rotation) {
            CameraModel { rotation: rotation, ..self }
        } else {
            self
        }
    }

    /// The camera after a press at `position` with the modifiers as given.
    pub open spec fn pressed(self, position: [u32; 2], ctrl: bool, shift: bool) -> CameraModel {
        CameraModel {
            mouse_pressed: true,
            last_mouse_position: position,
            ctrl_pressed: ctrl,
            shift_pressed: shift,
            ..self
        }
    }

    /// The camera after the button is let go.
    pub open spec fn released(self) -> CameraModel {
        CameraModel { mouse_pressed: false, ..self }
    }

    /// The camera after the modifiers change.
    pub open spec fn keyed(self, ctrl: bool, shift: bool) -> CameraModel {
        CameraModel { ctrl_pressed: ctrl, shift_pressed: shift, ..self }
    }

    /// Whether a move is part of a drag: the button is down and a modifier
    /// is held.
    pub open spec fn dragging(self) -> bool {
        self.mouse_pressed && (self.ctrl_pressed || self.shift_pressed)
    }

    /// What a move to `position` asks for: a pan with the pan modifier, else
    /// a rotation with the rotate modifier, and nothing outside a drag.
    pub open spec fn drag_action(self, position: [u32; 2]) -> DragAction {
        if !self.mouse_pressed {
            DragAction::Idle
        } else if self.ctrl_pressed {
            DragAction::Pan { from: self.last_mouse_position, to: position }
        } else if self.shift_pressed {
            DragAction::Rotate { from: self.last_mouse_position, to: position }
        } else {
            DragAction::Idle
        }
    }

    /// The camera after a move to `position`: a drag remembers the new
    /// position, any other move changes nothing.
    pub open spec fn moved(self, position: [u32; 2]) -> CameraModel {
        if self.dragging() {
            CameraModel { last_mouse_position: position, ..self }
        } else {
            self
        }
    }
}

/// The camera controller.
pub struct Camera {
    offset: [u32; 2],
    zoom: u32,
    rotation: u32,
    base_height: u32,
    mouse_pressed: bool,
    last_mouse_position: [u32; 2],
    ctrl_pressed: bool,
    shift_pressed: bool,
}

impl View for Camera {
    type V = CameraModel;

    closed spec fn view(&self) -> CameraModel {
        CameraModel {
            offset: self.offset,
            zoom: self.zoom,
            rotation: self.rotation,
            base_height: self.base_height,
            mouse_pressed: self.mouse_pressed,
            last_mouse_position: self.last_mouse_position,
            ctrl_pressed: self.ctrl_pressed,
            shift_pressed: self.shift_pressed,
        }
    }
}

impl Camera {
    /// What holds of every camera: its zoom and its rotation are in range.
    #[verifier::type_invariant]
    pub open spec fn well_formed(&self) -> bool {
        self@.wf()
    }

    /// A camera at rest at height `base_height`.
    pub fn new(base_height: u32) -> (camera: Self)
        ensures
            camera@ == CameraModel::initial(base_height),
            camera@.wf(),
    {
        Self {
            offset: [ZERO, ZERO],
            zoom: ONE,
            rotation: ZERO,
            base_height,
            mouse_pressed: false,
            last_mouse_position: [ZERO, ZERO],
            ctrl_pressed: false,
            shift_pressed: false,
        }
    }

    /// Everything the camera holds.
    pub fn state(&self) -> (state: CameraModel)
        ensures
            state == self@,
            state.wf(),
    {
        proof {
            use_type_invariant(self);
        }
        CameraModel {
            offset: self.offset,
            zoom: self.zoom,
            rotation: self.rotation,
            base_height: self.base_height,
            mouse_pressed: self.mouse_pressed,
            last_mouse_position: self.last_mouse_position,
            ctrl_pressed: self.ctrl_pressed,
            shift_pressed: self.shift_pressed,
        }
    }

    /// Takes the offset a pan arrived at. The caller has scaled the move by
    /// one over the zoom, turned it by the rotation and added it to the old
    /// offset.
    pub fn pan(&mut self, offset: [u32; 2])
        ensures
            final(self)@ == old(self)@.panned(offset),
            final(self)@.wf(),
    {
        proof {
            use_type_invariant(&*self);
        }
        self.offset = offset;
    }

    /// Takes the product of a zoom step, the old zoom times one plus the
    /// scaled delta, and clamps it into `0.1 ..= 10.0`. A product that is
    /// not a number is dropped.
    pub fn zoom(&mut self, scaled: u32)
        ensures
            final(self)@ == old(self)@.zoomed(scaled),
            final(self)@.wf(),
    {
        proof {
            use_type_invariant(&*self);
        }
        if !is_nan(scaled) {
            self.zoom = clamp(scaled, ZOOM_MIN, ZOOM_MAX);
        }
    }

    /// Takes the rotation a turn arrived at, which the caller has wrapped
    /// into `0 .. 2 pi`, and says whether it was taken. A rotation outside
    /// that range is dropped.
    pub fn rotate(&mut self, rotation: u32) -> (taken: bool)
        ensures
            final(self)@ == old(self)@.rotated(rotation),
            taken == CameraModel::wrapped(rotation),
            final(self)@.wf(),
    {
        proof {
            use_type_invariant(&*self);
        }
        if rotation < FULL_TURN {
            self.rotation = rotation;
            true
        } else {
            false
        }
    }

    /// The button went down at `position` with the modifiers as given.
    pub fn handle_mouse_press(&mut self, position: [u32; 2], ctrl: bool, shift: bool)
        ensures
            final(self)@ == old(self)@.pressed(position, ctrl, shift),
            final(self)@.wf(),
    {
        proof {
            use_type_invariant(&*self);
        }
        self.mouse_pressed = true;
        self.last_mouse_position = position;
        self.ctrl_pressed = ctrl;
        self.shift_pressed = shift;
    }

    /// The button was let go.
    pub fn handle_mouse_release(&mut self)
        ensures
            final(self)@ == old(self)@.released(),
            final(self)@.wf(),
    {
        proof {
            use_type_invariant(&*self);
        }
        self.mouse_pressed = false;
    }

    /// The mouse moved to `position`. Says what the move asks for; during a
    /// drag the camera remembers `position` for the next move.
    pub fn handle_mouse_move(&mut self, position: [u32; 2]) -> (action: DragAction)
        ensures
            action == old(self)@.drag_action(position),
            final(self)@ == old(self)@.moved(position),
            final(self)@.wf(),
    {
        proof {
            use_type_invariant(&*self);
        }
        if self.mouse_pressed {
            if self.ctrl_pressed {
                let from = self.last_mouse_position;
                self.last_mouse_position = position;
                return DragAction::Pan { from, to: position };
            } else if self.shift_pressed {
                let from = self.last_mouse_position;
                self.last_mouse_position = position;
                return DragAction::Rotate { from, to: position };
            }
        }
        DragAction::Idle
    }

    /// The wheel turned; `scaled` is the product of the zoom step.
    pub fn handle_mouse_wheel(&mut self, scaled: u32)
        ensures
            final(self)@ == old(self)@.zoomed(scaled),
            final(self)@.wf(),
    {
        self.zoom(scaled);
    }

    /// The modifiers changed.
    pub fn handle_key_state(&mut self, ctrl: bool, shift: bool)
        ensures
            final(self)@ == old(self)@.keyed(ctrl, shift),
            final(self)@.wf(),
    {
        proof {
            use_type_invariant(&*self);
        }
        self.ctrl_pressed = ctrl;
        self.shift_pressed = shift;
    }
}

/// A zoom step of delta zero, whose product is the zoom itself, changes
/// nothing.
pub proof fn lemma_zoom_by_nothing(camera: CameraModel)
    requires
        camera.wf(),
    ensures
        camera.zoomed(camera.zoom) == camera,
{
}

/// Whatever product a zoom step hands over, the zoom stays within
/// `0.1 ..= 10.0`: a product of ten or more, infinity included, leaves it at
/// exactly ten, and a product of a tenth or less, a negative one included,
/// at exactly a tenth. Once there, the same step again leaves it there.
pub proof fn lemma_zoom_saturates(camera: CameraModel, scaled: u32)
    requires
        camera.wf(),
    ensures
        camera.zoomed(scaled).wf(),
        !spec_is_nan(scaled) && !spec_less(scaled, ZOOM_MAX) ==> camera.zoomed(scaled).zoom
            == ZOOM_MAX,
        !spec_is_nan(scaled) && !spec_less(ZOOM_MIN, scaled) ==> camera.zoomed(scaled).zoom
            == ZOOM_MIN,
        camera.zoomed(scaled).zoomed(scaled) == camera.zoomed(scaled),
{
}

/// Whatever rotation a turn hands over, the rotation the camera holds
/// stays within `0 .. 2 pi`: it is the one handed over where that is
/// wrapped, and the one held before where it is not.
pub proof fn lemma_rotation_stays_wrapped(camera: CameraModel, rotation: u32)
    requires
        camera.wf(),
    ensures
        camera.rotated(rotation).wf(),
        CameraModel::wrapped(camera.rotated(rotation).rotation),
        camera.rotated(rotation).rotation == rotation || camera.rotated(rotation).rotation
            == camera.rotation,
{
}

} // verus!
