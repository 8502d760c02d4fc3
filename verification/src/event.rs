//! What the host shell reports to the viewer, and what the viewer asks of it.

use vstd::prelude::*;
use crate::camera::Movement;

verus! {

/// A physical key, as far as the viewer tells keys apart.
#[derive(Debug, Clone, Copy, PartialEq, Eq, Structural)]
pub enum KeyCode {
    KeyW,
    KeyA,
    KeyS,
    KeyD,
    Space,
    ShiftLeft,
    Escape,
    /// Any key that the viewer does not react to.
    Other,
}

/// An event of the viewer's window.
#[derive(Debug, Clone, Copy, PartialEq, Eq, Structural)]
pub enum WindowEvent {
    /// The window gained (`true`) or lost (`false`) the input focus.
    Focused(bool),
    /// The window has a new size, in pixels.
    Resized { width: u32, height: u32 },
    /// The user asked to close the window.
    CloseRequested,
    /// A key went down (`pressed`) or up.
    KeyboardInput { key: KeyCode, pressed: bool },
    /// The window wants a new frame. `now` is the reading of the host's
    /// monotonic clock, in nanoseconds.
    RedrawRequested { now: u128 },
    /// Any event that the viewer does not react to.
    Other,
}

/// Why no frame could be acquired from the frame sink.
#[derive(Debug, Clone, Copy, PartialEq, Eq, Structural)]
pub enum SurfaceError {
    /// Acquiring the frame took too long.
    Timeout,
    /// The sink has changed and the frame no longer fits it.
    Outdated,
    /// The sink is lost and must be configured again.
    Lost,
    /// No memory is left for a frame.
    OutOfMemory,
}

/// The numbers that the host needs to draw one frame.
#[derive(Debug, Clone, Copy, PartialEq, Eq, Structural)]
pub struct Frame {
    /// Width of the render target, in pixels.
    pub width: u32,
    /// Height of the render target, in pixels.
    pub height: u32,
    /// Milliseconds since the viewer started, modulo 2^32.
    pub millis_elapsed: u32,
    /// Nanoseconds since the frame before; what the camera is integrated
    /// over.
    pub elapsed: u128,
    /// The net direction of the movement keys held.
    pub movement: Movement,
}

/// What the host shell has to do after it reported an event.
#[derive(Debug, Clone, Copy, PartialEq, Eq, Structural)]
pub enum Action {
    /// Nothing.
    Idle,
    /// Hide the cursor and confine it to the window.
    CaptureCursor,
    /// Show the cursor and let it go.
    ReleaseCursor,
    /// Configure the frame sink for this size, set the camera's aspect ratio
    /// to it, and replace the depth buffer by one of this size.
    Reconfigure { width: u32, height: u32 },
    /// Draw and present this frame, then report how that went.
    Draw(Frame),
    /// Ask the window for another redraw.
    RequestRedraw,
    /// Report the error and go on with the next frame.
    Report(SurfaceError),
    /// Leave the event loop.
    Exit,
}

} // verus!
