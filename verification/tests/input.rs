use vk_obj::input::handle_event;
use vk_obj::input::FrameState;
use vk_obj::input::UiEvent;
use vk_obj::lifecycle::Controller;
use vk_obj::lifecycle::Mode;
use vk_obj::vk::win_dimensions;
use vk_obj::vk::VKError;

#[test]
fn motion_accumulates_only_while_pressed() {
    let mut ctl = Controller::new();
    let mut fs = FrameState::new();
    assert!(!fs.pointer_pressed);

    // Motion with the button up: nothing accumulates.
    assert!(!handle_event(&mut ctl, &mut fs, UiEvent::PointerMotion));

    // Press, then motion: the delta is to be accumulated.
    handle_event(&mut ctl, &mut fs, UiEvent::PointerButton(true));
    assert!(fs.pointer_pressed);
    assert!(handle_event(&mut ctl, &mut fs, UiEvent::PointerMotion));

    // Release, then motion: accumulation stops again.
    handle_event(&mut ctl, &mut fs, UiEvent::PointerButton(false));
    assert!(!fs.pointer_pressed);
    assert!(!handle_event(&mut ctl, &mut fs, UiEvent::PointerMotion));
}

#[test]
fn only_button_transitions_move_the_pressed_flag() {
    let mut ctl = Controller::new();
    let mut fs = FrameState::new();
    handle_event(&mut ctl, &mut fs, UiEvent::PointerButton(true));
    handle_event(&mut ctl, &mut fs, UiEvent::PointerMotion);
    handle_event(&mut ctl, &mut fs, UiEvent::Resized);
    handle_event(&mut ctl, &mut fs, UiEvent::Other);
    assert!(fs.pointer_pressed);
}

#[test]
fn close_and_resize_reach_the_controller() {
    let mut ctl = Controller::new();
    let mut fs = FrameState::new();
    assert_eq!(ctl.mode, Mode::Steady);
    handle_event(&mut ctl, &mut fs, UiEvent::Resized);
    assert_eq!(ctl.mode, Mode::PendingResize);
    handle_event(&mut ctl, &mut fs, UiEvent::CloseRequested);
    assert_eq!(ctl.mode, Mode::Terminated);
    // Events keep draining after termination without reviving the loop.
    handle_event(&mut ctl, &mut fs, UiEvent::Resized);
    assert_eq!(ctl.mode, Mode::Terminated);
}

#[test]
fn motion_leaves_the_controller_alone() {
    let mut ctl = Controller::new();
    let mut fs = FrameState::new();
    handle_event(&mut ctl, &mut fs, UiEvent::PointerButton(true));
    handle_event(&mut ctl, &mut fs, UiEvent::PointerMotion);
    assert_eq!(ctl.mode, Mode::Steady);
    assert_eq!(ctl.submissions, 0);
}

#[test]
fn window_dimensions_or_startup_error() {
    assert_eq!(win_dimensions(Some((800, 600))), Ok((800, 600)));
    assert_eq!(win_dimensions(None), Err(VKError::VKWindowError));
}
