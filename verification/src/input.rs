//! Pointer-input sampling: the per-frame state the event loop mutates and
//! the decisions made for each polled window event.
//!
//! Rotation angles themselves are floating-point values owned by the caller;
//! what is decided here is everything else: when a pointer-motion delta is
//! accumulated into them (exactly while the pointer is pressed), how the
//! pressed flag follows button transitions, and how close and resize events
//! reach the frame-lifecycle controller.

use vstd::prelude::*;

use crate::lifecycle::Controller;
use crate::lifecycle::Mode;
use crate::lifecycle::TickPhase;

verus! {

/// The input-driven state read once per frame by the submission step.
/// Only the event-routing step writes it.
#[derive(Clone, Copy, Debug, PartialEq, Eq)]
pub struct FrameState {
    /// Whether a pointer button is currently held down.
    pub pointer_pressed: bool,
}

/// One event drained from the windowing backend's queue, reduced to what
/// the core reacts to.
#[derive(Clone, Copy, Debug, PartialEq, Eq)]
pub enum UiEvent {
    /// The user asked to close the window.
    CloseRequested,
    /// The window's client area changed size.
    Resized,
    /// A pointer button went down (`true`) or up (`false`).
    PointerButton(bool),
    /// The pointer moved; the caller holds the motion delta.
    PointerMotion,
    /// Anything else the backend reports; ignored.
    Other,
}

/// Whether a pointer-motion event accumulates into the rotation angles:
/// exactly while the pointer is pressed.
pub open spec fn motion_accumulates(fs: FrameState, ev: UiEvent) -> bool {
    ev == UiEvent::PointerMotion && fs.pointer_pressed
}

/// The pressed flag after an event: button transitions set it, everything
/// else leaves it alone.
pub open spec fn pressed_after(fs: FrameState, ev: UiEvent) -> bool {
    match ev {
        UiEvent::PointerButton(down) => down,
        _ => fs.pointer_pressed,
    }
}

impl FrameState {
    /// The state before any event has been seen: pointer up.
    pub fn new() -> (fs: FrameState)
        ensures
            !fs.pointer_pressed,
    {
        FrameState { pointer_pressed: false }
    }
}

/// Routes one drained event: a close request terminates the lifecycle, a
/// resize marks the presentation context stale, a button transition moves
/// the pressed flag, and the result says whether the caller is to scale this
/// event's motion delta by the dampening factor and add it to the rotation
/// angles.
pub fn handle_event(ctl: &mut Controller, fs: &mut FrameState, ev: UiEvent) -> (accumulate: bool)
    requires
        old(ctl).phase == TickPhase::Idle,
    ensures
        final(ctl).phase == TickPhase::Idle,
        accumulate == motion_accumulates(*old(fs), ev),
        final(fs).pointer_pressed == pressed_after(*old(fs), ev),
        final(ctl).mode == (match ev {
            UiEvent::CloseRequested => Mode::Terminated,
            UiEvent::Resized => if old(ctl).mode == Mode::Terminated {
                Mode::Terminated
            } else {
                Mode::PendingResize
            },
            _ => old(ctl).mode,
        }),
        final(ctl).submissions == old(ctl).submissions,
        final(ctl).prev_frame == old(ctl).prev_frame,
        old(ctl).well_formed() ==> final(ctl).well_formed(),
{
    match ev {
        UiEvent::CloseRequested => {
            ctl.on_close_request();
            false
        },
        UiEvent::Resized => {
            ctl.on_window_resize();
            false
        },
        UiEvent::PointerButton(down) => {
            fs.pointer_pressed = down;
            false
        },
        UiEvent::PointerMotion => fs.pointer_pressed,
        UiEvent::Other => false,
    }
}

/// Law: pointer-motion deltas are accumulated exactly while the pointer is
/// pressed, and no event but a button transition changes the pressed flag.
pub proof fn lemma_accumulate_iff_pressed(fs: FrameState, ev: UiEvent)
    ensures
        motion_accumulates(fs, ev) <==> (ev == UiEvent::PointerMotion && fs.pointer_pressed),
        !(ev matches UiEvent::PointerButton(_)) ==> pressed_after(fs, ev) == fs.pointer_pressed,
{
}

} // verus!
