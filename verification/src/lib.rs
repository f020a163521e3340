//! A minimal GPU application shell, split into a verified core and a thin
//! backend layer.
//!
//! The core models the two tracks of the application: the per-frame render
//! loop (surface configuration, frame command recording, error recovery) and
//! the one-shot compute dispatch with read-back. All decisions — state
//! transitions of the event loop, surface reconfiguration, the exact command
//! sequence of a frame, dispatch geometry, and the byte layout of records in
//! GPU-visible buffers — are made here and verified. The backend layer owns
//! the window, the device and the queue, and carries these decisions out.

use vstd::prelude::*;

pub mod compute;
pub mod image;
pub mod state;
pub mod vertex;

use crate::state::PhysicalSize;
use crate::state::SurfaceError;

verus! {

/// The drawable size a browser-target canvas is created with.
pub const DEFAULT_CANVAS_WIDTH: u32 = 450;

/// See [`DEFAULT_CANVAS_WIDTH`].
pub const DEFAULT_CANVAS_HEIGHT: u32 = 400;

/// The state of the frame loop. `Exiting` is terminal: once reached, the loop
/// issues no further work of any kind.
#[derive(Clone, Copy, Debug, PartialEq, Eq, Structural)]
pub enum LoopState {
    Running,
    Resizing,
    Exiting,
}

/// An event delivered by the external window/event source, reduced to the
/// fields the loop reacts to. `KeyboardInput` carries whether the key went
/// down on this event (edge, not hold) and whether it is the Escape key.
#[derive(Clone, Copy, Debug, PartialEq, Eq, Structural)]
pub enum LoopEvent {
    CloseRequested,
    KeyboardInput { pressed: bool, escape: bool },
    Resized { width: u32, height: u32 },
    ScaleFactorChanged { width: u32, height: u32 },
    RedrawRequested,
    RedrawEventsCleared,
}

/// What the loop asks its backend to do in response to one event.
#[derive(Clone, Copy, Debug, PartialEq, Eq, Structural)]
pub enum LoopAction {
    /// Do nothing.
    Idle,
    /// Reconfigure the surface to the given dimensions.
    Reconfigure { width: u32, height: u32 },
    /// Render and present one frame.
    RenderFrame,
    /// Ask the window for another redraw tick.
    RequestRedraw,
}

/// The decision function of the frame loop: next state and requested action
/// for one incoming event.
///
/// A close request moves any live state to `Exiting`; an Escape key-press
/// (press, never release) does the same; resize and scale-factor changes move
/// to `Resizing` and ask for a reconfiguration; a redraw tick renders only
/// while `Running`; a cleared-events tick re-arms the next redraw. `Exiting`
/// absorbs every event and emits no action.
pub open spec fn spec_transition(s: LoopState, e: LoopEvent) -> (LoopState, LoopAction) {
    if s == LoopState::Exiting {
        (LoopState::Exiting, LoopAction::Idle)
    } else {
        match e {
            LoopEvent::CloseRequested => (LoopState::Exiting, LoopAction::Idle),
            LoopEvent::KeyboardInput { pressed, escape } => {
                if pressed && escape {
                    (LoopState::Exiting, LoopAction::Idle)
                } else {
                    (s, LoopAction::Idle)
                }
            },
            LoopEvent::Resized { width, height } => (
                LoopState::Resizing,
                LoopAction::Reconfigure { width, height },
            ),
            LoopEvent::ScaleFactorChanged { width, height } => (
                LoopState::Resizing,
                LoopAction::Reconfigure { width, height },
            ),
            LoopEvent::RedrawRequested => {
                if s == LoopState::Running {
                    (LoopState::Running, LoopAction::RenderFrame)
                } else {
                    (s, LoopAction::Idle)
                }
            },
            LoopEvent::RedrawEventsCleared => (s, LoopAction::RequestRedraw),
        }
    }
}

/// Executable form of the loop's decision function.
pub fn handle_window_event(s: LoopState, e: LoopEvent) -> (r: (LoopState, LoopAction))
    ensures
        r == spec_transition(s, e),
{
    if matches!(s, LoopState::Exiting) {
        (LoopState::Exiting, LoopAction::Idle)
    } else {
        match e {
            LoopEvent::CloseRequested => (LoopState::Exiting, LoopAction::Idle),
            LoopEvent::KeyboardInput { pressed, escape } => {
                if pressed && escape {
                    (LoopState::Exiting, LoopAction::Idle)
                } else {
                    (s, LoopAction::Idle)
                }
            },
            LoopEvent::Resized { width, height } => (
                LoopState::Resizing,
                LoopAction::Reconfigure { width, height },
            ),
            LoopEvent::ScaleFactorChanged { width, height } => (
                LoopState::Resizing,
                LoopAction::Reconfigure { width, height },
            ),
            LoopEvent::RedrawRequested => {
                if matches!(s, LoopState::Running) {
                    (LoopState::Running, LoopAction::RenderFrame)
                } else {
                    (s, LoopAction::Idle)
                }
            },
            LoopEvent::RedrawEventsCleared => (s, LoopAction::RequestRedraw),
        }
    }
}

/// The surface manager reports that a reconfiguration has completed: a
/// `Resizing` loop resumes `Running`; the other states are unaffected.
pub fn reconfigure_complete(s: LoopState) -> (r: LoopState)
    ensures
        s == LoopState::Resizing ==> r == LoopState::Running,
        s != LoopState::Resizing ==> r == s,
{
    match s {
        LoopState::Resizing => LoopState::Running,
        _ => s,
    }
}

/// How the frame loop reacts when a frame could not be rendered: a `Lost` or
/// `Outdated` target is recoverable — reconfigure with the last known size
/// and skip the frame — an `OutOfMemory` error forces any state to `Exiting`,
/// and a `Timeout` only skips the frame. No acquisition failure escapes the
/// loop.
pub open spec fn spec_render_recovery(s: LoopState, e: SurfaceError, size: PhysicalSize) -> (
    LoopState,
    LoopAction,
) {
    match e {
        SurfaceError::Lost => (s, LoopAction::Reconfigure { width: size.width, height: size.height }),
        SurfaceError::Outdated => (
            s,
            LoopAction::Reconfigure { width: size.width, height: size.height },
        ),
        SurfaceError::OutOfMemory => (LoopState::Exiting, LoopAction::Idle),
        SurfaceError::Timeout => (s, LoopAction::Idle),
    }
}

/// Executable form of the loop's reaction to a failed frame; `size` is the
/// last known window size.
pub fn handle_render_error(s: LoopState, e: SurfaceError, size: PhysicalSize) -> (r: (
    LoopState,
    LoopAction,
))
    ensures
        r == spec_render_recovery(s, e, size),
{
    match e {
        SurfaceError::Lost => (
            s,
            LoopAction::Reconfigure { width: size.width, height: size.height },
        ),
        SurfaceError::Outdated => (
            s,
            LoopAction::Reconfigure { width: size.width, height: size.height },
        ),
        SurfaceError::OutOfMemory => (LoopState::Exiting, LoopAction::Idle),
        SurfaceError::Timeout => (s, LoopAction::Idle),
    }
}

/// An Escape key-press while `Running` exits; an Escape release alone never
/// moves the loop out of its current state.
pub proof fn lemma_escape_edge_triggered(s: LoopState, escape: bool)
    ensures
        spec_transition(
            LoopState::Running,
            LoopEvent::KeyboardInput { pressed: true, escape: true },
        ).0 == LoopState::Exiting,
        spec_transition(s, LoopEvent::KeyboardInput { pressed: false, escape }).0 == s,
{
}

/// A close request moves every state to `Exiting`, and from `Exiting` no
/// event — in particular no cleared-events tick — ever requests a redraw or
/// any other work: the loop is terminal and silent.
pub proof fn lemma_close_is_terminal(s: LoopState, e: LoopEvent)
    ensures
        spec_transition(s, LoopEvent::CloseRequested).0 == LoopState::Exiting,
        spec_transition(LoopState::Exiting, e).0 == LoopState::Exiting,
        spec_transition(LoopState::Exiting, e).1 == LoopAction::Idle,
{
}

} // verus!
