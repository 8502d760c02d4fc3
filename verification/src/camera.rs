//! The movement keys of the camera controller.
//!
//! The controller remembers which of the six movement keys are held; once
//! per frame the host turns the net direction on each axis into a
//! displacement of the camera.

use vstd::prelude::*;
use crate::event::KeyCode;

verus! {

/// Which movement keys are held down.
#[derive(Debug, Clone, Copy, PartialEq, Eq, Structural)]
pub struct CameraController {
    pub forward: bool,
    pub backward: bool,
    pub left: bool,
    pub right: bool,
    pub up: bool,
    pub down: bool,
}

/// The net direction of movement on each axis of the camera: 1, 0 or -1.
#[derive(Debug, Clone, Copy, PartialEq, Eq, Structural)]
pub struct Movement {
    /// Along the camera's heading on the ground plane.
    pub forward: i8,
    /// Along the camera's right-hand side on the ground plane.
    pub right: i8,
    /// Along the world's up direction.
    pub up: i8,
}

/// The net sign of an axis: 1 if only the positive key is held, -1 if only
/// the negative one, 0 if both or neither.
pub open spec fn net_sign(positive: bool, negative: bool) -> int {
    (if positive { 1int } else { 0int }) - (if negative { 1int } else { 0int })
}

impl CameraController {
    /// The controller after `key` went down (`pressed`) or up. W and S move
    /// forward and backward, A and D left and right, Space and left Shift up
    /// and down; any other key changes nothing.
    pub open spec fn with_key(self, key: KeyCode, pressed: bool) -> CameraController {
        match key {
            KeyCode::KeyW => CameraController { forward: pressed, ..self },
            KeyCode::KeyA => CameraController { left: pressed, ..self },
            KeyCode::KeyS => CameraController { backward: pressed, ..self },
            KeyCode::KeyD => CameraController { right: pressed, ..self },
            KeyCode::Space => CameraController { up: pressed, ..self },
            KeyCode::ShiftLeft => CameraController { down: pressed, ..self },
            _ => self,
        }
    }

    /// The net direction on each axis.
    pub open spec fn spec_movement(self) -> Movement {
        Movement {
            forward: net_sign(self.forward, self.backward) as i8,
            right: net_sign(self.right, self.left) as i8,
            up: net_sign(self.up, self.down) as i8,
        }
    }

    /// A controller with no key held.
    pub fn new() -> (controller: CameraController)
        ensures
            controller == (CameraController {
                forward: false,
                backward: false,
                left: false,
                right: false,
                up: false,
                down: false,
            }),
    {
        CameraController {
            forward: false,
            backward: false,
            left: false,
            right: false,
            up: false,
            down: false,
        }
    }

    /// Records that `key` went down (`pressed`) or up.
    pub fn process_keyboard(&mut self, key: KeyCode, pressed: bool)
        ensures
            *final(self) == old(self).with_key(key, pressed),
    {
        match key {
            KeyCode::KeyW => self.forward = pressed,
            KeyCode::KeyA => self.left = pressed,
            KeyCode::KeyS => self.backward = pressed,
            KeyCode::KeyD => self.right = pressed,
            KeyCode::Space => self.up = pressed,
            KeyCode::ShiftLeft => self.down = pressed,
            _ => (),
        }
    }

    /// The net direction on each axis: for every axis, the key of the
    /// positive direction minus the key of the negative one.
    pub fn movement(&self) -> (movement: Movement)
        ensures
            movement == self.spec_movement(),
            movement.forward == net_sign(self.forward, self.backward),
            movement.right == net_sign(self.right, self.left),
            movement.up == net_sign(self.up, self.down),
    {
        Movement {
            forward: axis_sign(self.forward, self.backward),
            right: axis_sign(self.right, self.left),
            up: axis_sign(self.up, self.down),
        }
    }
}

/// The net sign of an axis.
fn axis_sign(positive: bool, negative: bool) -> (sign: i8)
    ensures
        sign == net_sign(positive, negative),
{
    let plus: i8 = if positive { 1 } else { 0 };
    let minus: i8 = if negative { 1 } else { 0 };
    plus - minus
}

/// Opposite keys cancel: while both keys of an axis are held, or neither,
/// the camera does not move along that axis.
pub proof fn lemma_opposite_keys_cancel(controller: CameraController)
    ensures
        controller.forward == controller.backward ==> controller.spec_movement().forward == 0,
        controller.left == controller.right ==> controller.spec_movement().right == 0,
        controller.up == controller.down ==> controller.spec_movement().up == 0,
{
}

} // verus!
