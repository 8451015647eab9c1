//! The frame-presentation lifecycle: a state machine that decides, tick by
//! tick, whether to rebuild the presentation context, acquire and submit a
//! frame, or halt, and that recovers from swapchain invalidation and resize.
//!
//! The machine owns only decisions and bookkeeping; the caller performs the
//! backend work (rebuild, acquire, submit, present) and reports each outcome
//! back through the `on_*` methods. The caller must not submit GPU work
//! except when told to by `on_acquire` — the contracts here guarantee that
//! this never happens while a resize is pending.

use vstd::prelude::*;

verus! {

/// The persistent state of the controller between ticks.
#[derive(Clone, Copy, Debug, PartialEq, Eq)]
pub enum Mode {
    /// Presentation context matches the window; frames may be drawn.
    Steady,
    /// The context is stale (resize or out-of-date signal); it must be
    /// rebuilt before any further acquisition or submission.
    PendingResize,
    /// A close request was received; no further work of any kind.
    Terminated,
}

/// What the caller is to do at the start of a tick.
#[derive(Clone, Copy, Debug, PartialEq, Eq)]
pub enum TickAction {
    /// Clean up finished prior work, then acquire the next presentable image.
    Acquire,
    /// Clean up finished prior work, then rebuild the presentation context
    /// at the window's current dimensions.
    Rebuild,
    /// Leave the frame loop.
    Halt,
}

/// Outcome of asking the backend for the next presentable image.
#[derive(Clone, Copy, Debug, PartialEq, Eq)]
pub enum AcquireOutcome {
    /// An image was acquired; its index selects the framebuffer to draw to.
    Acquired(usize),
    /// The surface no longer matches the window.
    AcquireOutOfDate,
}

/// Outcome of rebuilding the presentation context.
#[derive(Clone, Copy, Debug, PartialEq, Eq)]
pub enum RebuildOutcome {
    /// A fresh context sized to the window replaced the stale one.
    Rebuilt,
    /// The requested dimensions are unsupported; retry next tick.
    UnsupportedDimensions,
}

/// Outcome of submitting the recorded frame and requesting presentation.
#[derive(Clone, Copy, Debug, PartialEq, Eq)]
pub enum PresentOutcome {
    /// The frame was queued for presentation.
    Presented,
    /// The surface no longer matches the window; the frame was dropped.
    PresentOutOfDate,
    /// Any other backend failure; the frame was dropped, the loop goes on.
    PresentFailed,
}

/// Where within a tick the controller stands. A tick that acquires an image
/// must submit and present it before anything else happens; everything
/// outside that window — event draining, rebuilds, the next acquisition —
/// runs between frames.
#[derive(Clone, Copy, Debug, PartialEq, Eq)]
pub enum TickPhase {
    /// Between frames: no image is held, nothing is pending submission.
    Idle,
    /// An image is acquired and its frame is being recorded, submitted and
    /// presented; no other work may intervene.
    Acquired,
}

/// The one GPU-completion handle the controller tracks across ticks.
#[derive(Clone, Copy, Debug, PartialEq, Eq)]
pub enum PrevFrame {
    /// A handle that is already signaled; waiting on it can never block.
    AlreadySignaled,
    /// The completion handle of the numbered submission.
    Submission(u64),
}

/// Tick decision as a function of the persistent state alone.
pub open spec fn tick_action_of(m: Mode) -> TickAction {
    match m {
        Mode::Steady => TickAction::Acquire,
        Mode::PendingResize => TickAction::Rebuild,
        Mode::Terminated => TickAction::Halt,
    }
}

/// State after a rebuild attempt: success returns to steady rendering,
/// unsupported dimensions leave the rebuild pending for the next tick.
pub open spec fn mode_after_rebuild(o: RebuildOutcome) -> Mode {
    match o {
        RebuildOutcome::Rebuilt => Mode::Steady,
        RebuildOutcome::UnsupportedDimensions => Mode::PendingResize,
    }
}

/// State after an acquisition attempt: an out-of-date surface schedules a
/// rebuild and skips the rest of the frame.
pub open spec fn mode_after_acquire(o: AcquireOutcome) -> Mode {
    match o {
        AcquireOutcome::Acquired(_) => Mode::Steady,
        AcquireOutcome::AcquireOutOfDate => Mode::PendingResize,
    }
}

/// Whether an acquisition outcome licenses building and submitting a frame.
pub open spec fn acquire_submits(o: AcquireOutcome) -> bool {
    o matches AcquireOutcome::Acquired(_)
}

/// State after a submission and presentation attempt: only an out-of-date
/// surface forces a rebuild; any other failure drops the frame and goes on.
pub open spec fn mode_after_present(o: PresentOutcome) -> Mode {
    match o {
        PresentOutcome::Presented => Mode::Steady,
        PresentOutcome::PresentOutOfDate => Mode::PendingResize,
        PresentOutcome::PresentFailed => Mode::Steady,
    }
}

/// Handle tracked after a submission whose presentation ended as `o`: the
/// fresh handle of that submission on success, an already-signaled fallback
/// on any failure, so the loop is never stuck waiting on a broken fence.
pub open spec fn prev_frame_after_present(o: PresentOutcome, submission: int) -> PrevFrame {
    match o {
        PresentOutcome::Presented => PrevFrame::Submission(submission as u64),
        PresentOutcome::PresentOutOfDate => PrevFrame::AlreadySignaled,
        PresentOutcome::PresentFailed => PrevFrame::AlreadySignaled,
    }
}

/// The per-frame lifecycle controller.
///
/// `submissions` counts the command sequences handed to the device queue;
/// `prev_frame` is the single completion handle kept for the next tick's
/// cleanup. Well-formedness pins the tracked handle to the most recent
/// submission — a retained handle always supersedes every earlier one and
/// at most one is ever outstanding — and allows a frame in flight only from
/// a steady context.
#[derive(Clone, Copy, Debug, PartialEq, Eq)]
pub struct Controller {
    pub mode: Mode,
    pub phase: TickPhase,
    pub submissions: u64,
    pub prev_frame: PrevFrame,
}

impl Controller {
    /// The tracked completion handle is the latest submission's, if any,
    /// and a frame can only be in flight while the context is steady.
    pub open spec fn well_formed(self) -> bool {
        &&& match self.prev_frame {
            PrevFrame::AlreadySignaled => true,
            PrevFrame::Submission(n) => n == self.submissions && n >= 1,
        }
        &&& (self.phase == TickPhase::Acquired ==> self.mode == Mode::Steady)
    }

    /// A controller as it stands when the frame loop starts: ready to draw,
    /// with an already-signaled handle in place of a previous frame.
    pub fn new() -> (c: Controller)
        ensures
            c.mode == Mode::Steady,
            c.phase == TickPhase::Idle,
            c.submissions == 0,
            c.prev_frame == PrevFrame::AlreadySignaled,
            c.well_formed(),
    {
        Controller {
            mode: Mode::Steady,
            phase: TickPhase::Idle,
            submissions: 0,
            prev_frame: PrevFrame::AlreadySignaled,
        }
    }

    /// Decides what this tick does. The state does not change: only outcomes
    /// reported back through the `on_*` methods move the machine.
    pub fn begin_tick(&self) -> (a: TickAction)
        requires
            self.phase == TickPhase::Idle,
        ensures
            a == tick_action_of(self.mode),
    {
        match self.mode {
            Mode::Steady => TickAction::Acquire,
            Mode::PendingResize => TickAction::Rebuild,
            Mode::Terminated => TickAction::Halt,
        }
    }

    /// The windowing backend reported a resize: the context is stale. A
    /// terminated controller stays terminated. Events are drained between
    /// frames, never while one is in flight.
    pub fn on_window_resize(&mut self)
        requires
            old(self).phase == TickPhase::Idle,
        ensures
            final(self).mode == (if old(self).mode == Mode::Terminated {
                Mode::Terminated
            } else {
                Mode::PendingResize
            }),
            final(self).phase == TickPhase::Idle,
            final(self).submissions == old(self).submissions,
            final(self).prev_frame == old(self).prev_frame,
            old(self).well_formed() ==> final(self).well_formed(),
    {
        match self.mode {
            Mode::Terminated => {},
            _ => {
                self.mode = Mode::PendingResize;
            },
        }
    }

    /// The windowing backend asked to close: terminal from every state.
    pub fn on_close_request(&mut self)
        requires
            old(self).phase == TickPhase::Idle,
        ensures
            final(self).mode == Mode::Terminated,
            final(self).phase == TickPhase::Idle,
            final(self).submissions == old(self).submissions,
            final(self).prev_frame == old(self).prev_frame,
            old(self).well_formed() ==> final(self).well_formed(),
    {
        self.mode = Mode::Terminated;
    }

    /// The window can no longer report its dimensions, so no context can be
    /// rebuilt: the loop ends.
    pub fn on_dimensions_unavailable(&mut self)
        requires
            old(self).phase == TickPhase::Idle,
        ensures
            final(self).mode == Mode::Terminated,
            final(self).phase == TickPhase::Idle,
            final(self).submissions == old(self).submissions,
            final(self).prev_frame == old(self).prev_frame,
            old(self).well_formed() ==> final(self).well_formed(),
    {
        self.mode = Mode::Terminated;
    }

    /// The caller rebuilt the presentation context, as `begin_tick` told it
    /// to, and reports how it went.
    pub fn on_rebuild(&mut self, outcome: RebuildOutcome)
        requires
            old(self).mode == Mode::PendingResize,
            old(self).phase == TickPhase::Idle,
        ensures
            final(self).mode == mode_after_rebuild(outcome),
            final(self).phase == TickPhase::Idle,
            final(self).submissions == old(self).submissions,
            final(self).prev_frame == old(self).prev_frame,
            old(self).well_formed() ==> final(self).well_formed(),
    {
        match outcome {
            RebuildOutcome::Rebuilt => {
                self.mode = Mode::Steady;
            },
            RebuildOutcome::UnsupportedDimensions => {},
        }
    }

    /// The caller tried to acquire the next presentable image, as
    /// `begin_tick` told it to. The result says whether to record and submit
    /// this frame: exactly when an image came back, never during a pending
    /// resize, and never without a steady context. A frame is in flight
    /// afterwards exactly when the result says to submit.
    pub fn on_acquire(&mut self, outcome: AcquireOutcome) -> (submit: bool)
        requires
            old(self).mode == Mode::Steady,
            old(self).phase == TickPhase::Idle,
        ensures
            final(self).mode == mode_after_acquire(outcome),
            submit == acquire_submits(outcome),
            submit ==> final(self).mode == Mode::Steady,
            final(self).phase == (if submit {
                TickPhase::Acquired
            } else {
                TickPhase::Idle
            }),
            final(self).submissions == old(self).submissions,
            final(self).prev_frame == old(self).prev_frame,
            old(self).well_formed() ==> final(self).well_formed(),
    {
        match outcome {
            AcquireOutcome::Acquired(_) => {
                self.phase = TickPhase::Acquired;
                true
            },
            AcquireOutcome::AcquireOutOfDate => {
                self.mode = Mode::PendingResize;
                false
            },
        }
    }

    /// The caller submitted the recorded frame and asked for presentation,
    /// which only an acquired image allows — so at most one submission per
    /// tick, and never one while a resize is pending. Whatever came back,
    /// the previously tracked handle is replaced: by the fresh submission's
    /// handle on success, by an already-signaled fallback otherwise.
    pub fn on_present(&mut self, outcome: PresentOutcome)
        requires
            old(self).phase == TickPhase::Acquired,
            old(self).well_formed(),
            old(self).submissions < u64::MAX,
        ensures
            final(self).mode == mode_after_present(outcome),
            final(self).phase == TickPhase::Idle,
            final(self).submissions == old(self).submissions + 1,
            final(self).prev_frame == prev_frame_after_present(
                outcome,
                old(self).submissions + 1,
            ),
            final(self).well_formed(),
    {
        self.phase = TickPhase::Idle;
        self.submissions = self.submissions + 1;
        match outcome {
            PresentOutcome::Presented => {
                self.prev_frame = PrevFrame::Submission(self.submissions);
            },
            PresentOutcome::PresentOutOfDate => {
                self.mode = Mode::PendingResize;
                self.prev_frame = PrevFrame::AlreadySignaled;
            },
            PresentOutcome::PresentFailed => {
                self.prev_frame = PrevFrame::AlreadySignaled;
            },
        }
    }
}

/// Law: a submission can only be licensed from the steady state. In
/// particular, while a resize is pending the tick decision is to rebuild,
/// never to acquire, so no frame is ever recorded or submitted then.
pub proof fn lemma_no_submission_while_resize_pending(m: Mode)
    ensures
        tick_action_of(m) == TickAction::Acquire <==> m == Mode::Steady,
        m == Mode::PendingResize ==> tick_action_of(m) == TickAction::Rebuild,
{
}

/// Law: a well-formed controller never tracks a handle of anything but its
/// latest submission — replacement supersedes, and at most one completion
/// handle is outstanding at a time.
pub proof fn lemma_tracked_handle_is_latest(c: Controller, n: u64)
    requires
        c.well_formed(),
        c.prev_frame == PrevFrame::Submission(n),
    ensures
        n == c.submissions,
{
}

} // verus!
