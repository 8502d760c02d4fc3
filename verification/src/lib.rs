//! Core of a first-person lattice viewer: the grid mesh, the data handed to
//! the GPU, and the decisions of the frame loop.
//!
//! The host shell owns the window, the GPU and the camera. It reports what
//! happens to an [`AppHandler`], which keeps the [`state::State`] and answers
//! each report with the [`event::Action`] to take.

use vstd::prelude::*;
use crate::event::{Action, KeyCode, SurfaceError, WindowEvent};
use crate::state::{State, StateView};

pub mod background;
pub mod bytes;
pub mod camera;
pub mod chunk;
pub mod event;
pub mod globals;
pub mod lattice;
pub mod state;
pub mod vertex;

verus! {

/// The viewer as the host's event loop sees it: without a state until the
/// host resumes it, with one from then on.
#[derive(Debug)]
pub struct AppHandler {
    state: Option<State>,
}

/// What the host has to do after the window event `event` reached a viewer
/// in the state `state`.
pub open spec fn window_action(state: StateView, event: WindowEvent) -> Action {
    match event {
        WindowEvent::Focused(focused) => if focused {
            Action::CaptureCursor
        } else {
            Action::ReleaseCursor
        },
        WindowEvent::Resized { width, height } => if StateView::accepts_size(
            width as nat,
            height as nat,
        ) {
            Action::Reconfigure { width, height }
        } else {
            Action::Idle
        },
        WindowEvent::CloseRequested => Action::Exit,
        WindowEvent::KeyboardInput { key, pressed } => if pressed && key == KeyCode::Escape {
            Action::Exit
        } else {
            Action::Idle
        },
        WindowEvent::RedrawRequested { now } => Action::Draw(state.frame(now as nat)),
        WindowEvent::Other => Action::Idle,
    }
}

/// The state that the window event `event` leaves a viewer in that was in
/// the state `state`.
pub open spec fn after_window_event(state: StateView, event: WindowEvent) -> StateView {
    match event {
        WindowEvent::Resized { width, height } => state.resized(width as nat, height as nat),
        WindowEvent::RedrawRequested { now } => state.rendered(now as nat),
        _ => state,
    }
}

/// What the host has to do after drawing a frame ended with `outcome`: go
/// on after a frame that was presented; configure the sink again at its
/// present size after it was lost; leave when memory ran out; report any
/// other error and go on.
pub open spec fn frame_action(state: StateView, outcome: Result<(), SurfaceError>) -> Action {
    match outcome {
        Ok(_) => Action::Idle,
        Err(SurfaceError::Lost) => Action::Reconfigure {
            width: state.width as u32,
            height: state.height as u32,
        },
        Err(SurfaceError::OutOfMemory) => Action::Exit,
        Err(error) => Action::Report(error),
    }
}

impl View for AppHandler {
    type V = Option<StateView>;

    /// What the viewer's state holds, if the viewer has one.
    closed spec fn view(&self) -> Option<StateView> {
        match self.state {
            Some(state) => Some(state@),
            None => None,
        }
    }
}

impl AppHandler {
    /// A viewer that has not been resumed yet.
    pub fn new() -> (handler: AppHandler)
        ensures
            handler@ is None,
    {
        AppHandler { state: None }
    }

    /// The viewer's state, if the viewer was resumed.
    pub fn state(&self) -> (state: Option<&State>)
        ensures
            state is Some == self@ is Some,
            state matches Some(held) ==> self@ == Some(held@),
    {
        self.state.as_ref()
    }

    /// The host resumed the viewer at the clock reading `now`, and has a
    /// window for it. The viewer starts over from its initial state, and the
    /// host has to capture the cursor.
    pub fn resumed(&mut self, now: u128) -> (action: Action)
        ensures
            final(self)@ == Some(StateView::initial(now as nat)),
            action == Action::CaptureCursor,
    {
        self.state = Some(State::new(now));
        Action::CaptureCursor
    }

    /// An input device reported that `key` went down (`pressed`) or up.
    /// Scroll and pointer motion are continuous quantities that act on the
    /// camera alone; the host keeps them.
    pub fn device_event(&mut self, key: KeyCode, pressed: bool)
        requires
            old(self)@ is Some,
        ensures
            final(self)@ == Some(old(self)@.unwrap().with_key(key, pressed)),
    {
        match &mut self.state {
            Some(state) => state.device_input(key, pressed),
            None => {},
        }
    }

    /// The viewer's window reported `event`. Returns what the host has to
    /// do about it.
    pub fn window_event(&mut self, event: WindowEvent) -> (action: Action)
        requires
            old(self)@ is Some,
        ensures
            final(self)@ == Some(after_window_event(old(self)@.unwrap(), event)),
            action == window_action(old(self)@.unwrap(), event),
    {
        match &mut self.state {
            Some(state) => match event {
                WindowEvent::Focused(focused) => if focused {
                    Action::CaptureCursor
                } else {
                    Action::ReleaseCursor
                },
                WindowEvent::Resized { width, height } => if state.resize(width, height) {
                    Action::Reconfigure { width, height }
                } else {
                    Action::Idle
                },
                WindowEvent::CloseRequested => Action::Exit,
                WindowEvent::KeyboardInput { key: KeyCode::Escape, pressed: true } => Action::Exit,
                WindowEvent::RedrawRequested { now } => {
                    state.update();
                    Action::Draw(state.render(now))
                },
                _ => {
                    state.window_input(event);
                    Action::Idle
                },
            },
            None => Action::Idle,
        }
    }

    /// The host drew the frame it was asked for, with `outcome`. Returns
    /// what the host has to do next. A lost sink is configured again at the
    /// size the viewer has, which is never zero.
    pub fn frame_finished(&mut self, outcome: Result<(), SurfaceError>) -> (action: Action)
        requires
            old(self)@ is Some,
        ensures
            final(self)@ == old(self)@,
            action == frame_action(old(self)@.unwrap(), outcome),
            outcome == Err::<(), SurfaceError>(SurfaceError::Lost) ==> (action matches Action::Reconfigure {
                width,
                height,
            } && width > 0 && height > 0),
    {
        match &mut self.state {
            Some(state) => match outcome {
                Ok(_) => Action::Idle,
                Err(SurfaceError::Lost) => {
                    let width: u32 = state.width();
                    let height: u32 = state.height();
                    state.resize(width, height);
                    Action::Reconfigure { width, height }
                },
                Err(SurfaceError::OutOfMemory) => Action::Exit,
                Err(error) => Action::Report(error),
            },
            None => Action::Idle,
        }
    }

    /// The event loop is about to wait for events. The viewer draws all
    /// the time: the host has to ask for another redraw.
    pub fn about_to_wait(&self) -> (action: Action)
        requires
            self@ is Some,
        ensures
            action == Action::RequestRedraw,
    {
        Action::RequestRedraw
    }
}

/// A resize to a size with a zero dimension is ignored entirely: the state
/// stays as it was, and the host is asked for nothing.
pub proof fn lemma_zero_size_is_ignored(state: StateView, width: u32, height: u32)
    requires
        width == 0 || height == 0,
    ensures
        after_window_event(state, WindowEvent::Resized { width, height }) == state,
        window_action(state, WindowEvent::Resized { width, height }) == Action::Idle,
{
}

/// No window event makes a dimension of the frame sink zero, and a size that
/// the host is asked to configure has no zero dimension.
pub proof fn lemma_size_stays_nonzero(state: StateView, event: WindowEvent)
    requires
        state.wf(),
    ensures
        after_window_event(state, event).wf(),
        (window_action(state, event) matches Action::Reconfigure { width, height } ==> width > 0
            && height > 0),
{
}

} // verus!
