//! The viewer's state between frames: the size of the frame sink, the keys
//! held, and the clock of the frame loop.
//!
//! The host owns the GPU resources and the camera. It reports sizes, keys and
//! clock readings to [`State`], which decides what of them takes effect.

use vstd::prelude::*;
use crate::camera::CameraController;
use crate::event::{Frame, KeyCode, WindowEvent};

verus! {

/// Width of the frame sink before the first resize, in pixels.
pub const INIT_WIDTH: u32 = 800;

/// Height of the frame sink before the first resize, in pixels.
pub const INIT_HEIGHT: u32 = 600;

/// Nanoseconds in a millisecond.
pub const NANOS_PER_MILLI: u128 = 1_000_000;

/// The viewer's state between frames. Width and height are never zero.
#[derive(Debug)]
pub struct State {
    width: u32,
    height: u32,
    camera_controller: CameraController,
    last_render: u128,
    start_instant: u128,
}

/// What a [`State`] holds.
pub struct StateView {
    /// Width of the frame sink, and of the depth buffer, in pixels.
    pub width: nat,
    /// Height of the frame sink, and of the depth buffer, in pixels.
    pub height: nat,
    /// The movement keys held.
    pub keys: CameraController,
    /// Clock reading at the last frame, in nanoseconds.
    pub last_render: nat,
    /// Clock reading at the start, in nanoseconds.
    pub start_instant: nat,
}

/// `later - earlier`, or 0 where the clock reading `later` lies before
/// `earlier`.
pub open spec fn time_between(earlier: nat, later: nat) -> nat {
    if later >= earlier {
        (later - earlier) as nat
    } else {
        0
    }
}

impl StateView {
    /// The state of a viewer that starts at the clock reading `now`.
    pub open spec fn initial(now: nat) -> StateView {
        StateView {
            width: INIT_WIDTH as nat,
            height: INIT_HEIGHT as nat,
            keys: CameraController {
                forward: false,
                backward: false,
                left: false,
                right: false,
                up: false,
                down: false,
            },
            last_render: now,
            start_instant: now,
        }
    }

    /// Whether neither dimension is zero.
    pub open spec fn wf(self) -> bool {
        self.width > 0 && self.height > 0
    }

    /// Whether a resize to `width` by `height` takes effect: only if neither
    /// is zero.
    pub open spec fn accepts_size(width: nat, height: nat) -> bool {
        width != 0 && height != 0
    }

    /// The state after `key` went down (`pressed`) or up.
    pub open spec fn with_key(self, key: KeyCode, pressed: bool) -> StateView {
        StateView { keys: self.keys.with_key(key, pressed), ..self }
    }

    /// The state after a resize to `width` by `height` was reported.
    pub open spec fn resized(self, width: nat, height: nat) -> StateView {
        if Self::accepts_size(width, height) {
            StateView { width, height, ..self }
        } else {
            self
        }
    }

    /// The state after a frame was started at the clock reading `now`.
    pub open spec fn rendered(self, now: nat) -> StateView {
        StateView { last_render: now, ..self }
    }

    /// The numbers of the frame that starts at the clock reading `now`.
    pub open spec fn frame(self, now: nat) -> Frame {
        Frame {
            width: self.width as u32,
            height: self.height as u32,
            millis_elapsed: (time_between(self.start_instant, now) / (NANOS_PER_MILLI as nat)
                % 0x1_0000_0000) as u32,
            elapsed: time_between(self.last_render, now) as u128,
            movement: self.keys.spec_movement(),
        }
    }
}

impl View for State {
    type V = StateView;

    closed spec fn view(&self) -> StateView {
        StateView {
            width: self.width as nat,
            height: self.height as nat,
            keys: self.camera_controller,
            last_render: self.last_render as nat,
            start_instant: self.start_instant as nat,
        }
    }
}

impl State {
    #[verifier::type_invariant]
    spec fn nonzero_size(&self) -> bool {
        self.width > 0 && self.height > 0
    }

    /// The state of a viewer that starts at the clock reading `now`: the
    /// initial size, no key held, no frame drawn yet.
    pub fn new(now: u128) -> (state: State)
        ensures
            state@ == StateView::initial(now as nat),
    {
        State {
            width: INIT_WIDTH,
            height: INIT_HEIGHT,
            camera_controller: CameraController::new(),
            last_render: now,
            start_instant: now,
        }
    }

    /// Records that `key` went down (`pressed`) or up.
    pub fn device_input(&mut self, key: KeyCode, pressed: bool)
        ensures
            final(self)@ == old(self)@.with_key(key, pressed),
    {
        proof {
            use_type_invariant(&*self);
        }
        let mut keys = self.camera_controller;
        keys.process_keyboard(key, pressed);
        self.camera_controller = keys;
    }

    /// Takes a window event that the frame loop has no use for. Nothing
    /// changes.
    pub fn window_input(&mut self, event: WindowEvent)
        ensures
            final(self)@ == old(self)@,
    {
    }

    /// Advances the scene before a frame. The scene is static: nothing
    /// changes.
    pub fn update(&mut self)
        ensures
            final(self)@ == old(self)@,
    {
    }

    /// Takes a new size of the window. A size with a zero dimension is
    /// ignored; any other becomes the size of the frame sink. Returns
    /// whether the size took effect, that is, whether the host has to
    /// configure the sink, the camera and the depth buffer for it.
    pub fn resize(&mut self, width: u32, height: u32) -> (applied: bool)
        ensures
            applied == StateView::accepts_size(width as nat, height as nat),
            final(self)@ == old(self)@.resized(width as nat, height as nat),
            !applied ==> final(self)@ == old(self)@,
    {
        proof {
            use_type_invariant(&*self);
        }
        if width == 0 || height == 0 {
            return false;
        }
        self.width = width;
        self.height = height;
        true
    }

    /// Width of the frame sink, in pixels.
    pub fn width(&self) -> (width: u32)
        ensures
            width == self@.width,
            width > 0,
    {
        proof {
            use_type_invariant(self);
        }
        self.width
    }

    /// Height of the frame sink, in pixels.
    pub fn height(&self) -> (height: u32)
        ensures
            height == self@.height,
            height > 0,
    {
        proof {
            use_type_invariant(self);
        }
        self.height
    }

    /// The movement keys held.
    pub fn camera_controller(&self) -> (controller: CameraController)
        ensures
            controller == self@.keys,
    {
        self.camera_controller
    }

    /// Starts a frame at the clock reading `now`: returns the size of the
    /// target, the time since the start in milliseconds, the time since the
    /// frame before and the net direction of the keys held, and makes `now`
    /// the time of the last frame. A reading that lies before the one it is
    /// compared with counts as no time passed.
    pub fn render(&mut self, now: u128) -> (frame: Frame)
        ensures
            frame == old(self)@.frame(now as nat),
            final(self)@ == old(self)@.rendered(now as nat),
    {
        proof {
            use_type_invariant(&*self);
        }
        let since_start: u128 = now.saturating_sub(self.start_instant);
        let millis: u128 = since_start / NANOS_PER_MILLI;
        let frame = Frame {
            width: self.width,
            height: self.height,
            millis_elapsed: (millis % 0x1_0000_0000) as u32,
            elapsed: now.saturating_sub(self.last_render),
            movement: self.camera_controller.movement(),
        };
        self.last_render = now;
        frame
    }
}

/// The times that two consecutive frames report add up to the time between
/// the frame before them and the second of them: no time is lost between
/// frames, and none is counted twice.
pub proof fn lemma_elapsed_times_add_up(state: StateView, first: nat, second: nat)
    requires
        state.last_render <= first <= second <= u128::MAX,
    ensures
        state.frame(first).elapsed + state.rendered(first).frame(second).elapsed == second
            - state.last_render,
        state.rendered(first).frame(first).elapsed == 0,
{
}

} // verus!
