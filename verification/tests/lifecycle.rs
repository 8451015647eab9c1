use vk_obj::lifecycle::AcquireOutcome;
use vk_obj::lifecycle::Controller;
use vk_obj::lifecycle::Mode;
use vk_obj::lifecycle::PresentOutcome;
use vk_obj::lifecycle::PrevFrame;
use vk_obj::lifecycle::RebuildOutcome;
use vk_obj::lifecycle::TickAction;

#[test]
fn scripted_backend_responses_drive_expected_modes() {
    // Four ticks with backend responses Ok, OutOfDate, UnsupportedDimensions,
    // Ok: the controller passes through Steady, PendingResize, PendingResize,
    // Steady, and never submits while a resize is pending.
    let mut ctl = Controller::new();
    assert_eq!(ctl.mode, Mode::Steady);

    // Tick 1: Ok — acquire, submit, present.
    assert_eq!(ctl.begin_tick(), TickAction::Acquire);
    let submit = ctl.on_acquire(AcquireOutcome::Acquired(0));
    assert!(submit);
    ctl.on_present(PresentOutcome::Presented);
    assert_eq!(ctl.mode, Mode::Steady);

    // Tick 2: OutOfDate — acquisition fails, the frame is skipped.
    assert_eq!(ctl.begin_tick(), TickAction::Acquire);
    let submit = ctl.on_acquire(AcquireOutcome::AcquireOutOfDate);
    assert!(!submit);
    assert_eq!(ctl.mode, Mode::PendingResize);

    // Tick 3: UnsupportedDimensions — rebuild is retried, nothing submitted.
    let action = ctl.begin_tick();
    assert_eq!(action, TickAction::Rebuild);
    assert_ne!(action, TickAction::Acquire);
    ctl.on_rebuild(RebuildOutcome::UnsupportedDimensions);
    assert_eq!(ctl.mode, Mode::PendingResize);

    // Tick 4: Ok — the rebuild succeeds and rendering resumes.
    assert_eq!(ctl.begin_tick(), TickAction::Rebuild);
    ctl.on_rebuild(RebuildOutcome::Rebuilt);
    assert_eq!(ctl.mode, Mode::Steady);
}

#[test]
fn close_request_is_terminal_from_every_state() {
    let mut steady = Controller::new();
    steady.on_close_request();
    assert_eq!(steady.mode, Mode::Terminated);
    assert_eq!(steady.begin_tick(), TickAction::Halt);

    let mut pending = Controller::new();
    pending.on_window_resize();
    assert_eq!(pending.mode, Mode::PendingResize);
    pending.on_close_request();
    assert_eq!(pending.mode, Mode::Terminated);

    // Terminated stays terminated, whatever else the window reports.
    let mut done = Controller::new();
    done.on_close_request();
    done.on_window_resize();
    assert_eq!(done.mode, Mode::Terminated);
}

#[test]
fn resize_marks_context_stale() {
    let mut ctl = Controller::new();
    ctl.on_window_resize();
    assert_eq!(ctl.mode, Mode::PendingResize);
    assert_eq!(ctl.begin_tick(), TickAction::Rebuild);
}

#[test]
fn unavailable_dimensions_end_the_loop() {
    let mut ctl = Controller::new();
    ctl.on_window_resize();
    ctl.on_dimensions_unavailable();
    assert_eq!(ctl.mode, Mode::Terminated);
    assert_eq!(ctl.begin_tick(), TickAction::Halt);
}

#[test]
fn presentation_outcomes_replace_the_tracked_handle() {
    let mut ctl = Controller::new();
    assert_eq!(ctl.prev_frame, PrevFrame::AlreadySignaled);

    // Two presented frames: each retains its own, fresh completion handle.
    ctl.on_acquire(AcquireOutcome::Acquired(0));
    ctl.on_present(PresentOutcome::Presented);
    assert_eq!(ctl.prev_frame, PrevFrame::Submission(1));
    ctl.on_acquire(AcquireOutcome::Acquired(1));
    ctl.on_present(PresentOutcome::Presented);
    assert_eq!(ctl.prev_frame, PrevFrame::Submission(2));

    // An out-of-date presentation falls back to a signaled handle and
    // schedules a rebuild.
    ctl.on_acquire(AcquireOutcome::Acquired(0));
    ctl.on_present(PresentOutcome::PresentOutOfDate);
    assert_eq!(ctl.prev_frame, PrevFrame::AlreadySignaled);
    assert_eq!(ctl.mode, Mode::PendingResize);
    ctl.on_rebuild(RebuildOutcome::Rebuilt);

    // Any other presentation failure drops the frame but keeps rendering.
    ctl.on_acquire(AcquireOutcome::Acquired(0));
    ctl.on_present(PresentOutcome::PresentFailed);
    assert_eq!(ctl.prev_frame, PrevFrame::AlreadySignaled);
    assert_eq!(ctl.mode, Mode::Steady);
    assert_eq!(ctl.submissions, 4);
}
