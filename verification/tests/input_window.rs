use flatland::input_window::{
    ElementState, InputAction, InputWindow, KeyCode, KeyboardInput, MouseButton, WindowEvent,
    WindowTitle, CTRL_MODIFIER,
};

fn escape_released() -> WindowEvent {
    WindowEvent::KeyboardInput(KeyboardInput {
        virtual_keycode: Some(KeyCode::Escape),
        state: ElementState::Released,
    })
}

fn left_released() -> WindowEvent {
    WindowEvent::MouseInput { state: ElementState::Released, button: MouseButton::Left }
}

#[test]
fn new_window_starts_released_and_asks_to_release() {
    let (w, action) = InputWindow::new();
    assert_eq!(w, InputWindow { grabbed: false, modifiers: 0 });
    assert_eq!(action, Some(InputAction::GrabCursor(false)));
}

#[test]
fn left_click_grabs() {
    let (mut w, _) = InputWindow::new();
    assert_eq!(w.handle_window_event(left_released()), Some(InputAction::GrabCursor(true)));
    assert!(w.grabbed);
    // a second click asks nothing more
    assert_eq!(w.handle_window_event(left_released()), None);
    assert!(w.grabbed);
}

#[test]
fn pressed_or_other_buttons_do_not_grab() {
    let (mut w, _) = InputWindow::new();
    let pressed = WindowEvent::MouseInput { state: ElementState::Pressed, button: MouseButton::Left };
    assert_eq!(w.handle_window_event(pressed), None);
    let right = WindowEvent::MouseInput { state: ElementState::Released, button: MouseButton::Right };
    assert_eq!(w.handle_window_event(right), None);
    let other = WindowEvent::MouseInput { state: ElementState::Released, button: MouseButton::Other(8) };
    assert_eq!(w.handle_window_event(other), None);
    assert!(!w.grabbed);
}

#[test]
fn ctrl_escape_releases() {
    let mut w = InputWindow { grabbed: true, modifiers: 0 };
    // without control nothing happens
    assert_eq!(w.handle_window_event(escape_released()), None);
    assert!(w.grabbed);
    // control is the bit 32 of winit's modifier set
    assert_eq!(w.handle_window_event(WindowEvent::ModifiersChanged(CTRL_MODIFIER)), None);
    assert_eq!(w.modifiers, 32);
    assert_eq!(w.handle_window_event(escape_released()), Some(InputAction::GrabCursor(false)));
    assert!(!w.grabbed);
}

#[test]
fn ctrl_with_other_modifiers_still_releases() {
    // shift (4) and alt (256) held together with control
    let mut w = InputWindow { grabbed: true, modifiers: 4 | 32 | 256 };
    assert_eq!(w.handle_window_event(escape_released()), Some(InputAction::GrabCursor(false)));
    let mut w = InputWindow { grabbed: true, modifiers: 4 | 256 };
    assert_eq!(w.handle_window_event(escape_released()), None);
}

#[test]
fn escape_pressed_or_other_key_does_not_release() {
    let mut w = InputWindow { grabbed: true, modifiers: CTRL_MODIFIER };
    let pressed = WindowEvent::KeyboardInput(KeyboardInput {
        virtual_keycode: Some(KeyCode::Escape),
        state: ElementState::Pressed,
    });
    assert_eq!(w.handle_window_event(pressed), None);
    let other = WindowEvent::KeyboardInput(KeyboardInput {
        virtual_keycode: Some(KeyCode::Other),
        state: ElementState::Released,
    });
    assert_eq!(w.handle_window_event(other), None);
    let unknown = WindowEvent::KeyboardInput(KeyboardInput {
        virtual_keycode: None,
        state: ElementState::Released,
    });
    assert_eq!(w.handle_window_event(unknown), None);
    assert!(w.grabbed);
}

#[test]
fn release_then_click_regrabs() {
    let start = InputWindow { grabbed: true, modifiers: CTRL_MODIFIER };
    let mut w = start;
    assert_eq!(w.handle_window_event(escape_released()), Some(InputAction::GrabCursor(false)));
    assert_eq!(w.handle_window_event(left_released()), Some(InputAction::GrabCursor(true)));
    assert_eq!(w, start);
}

#[test]
fn cursor_recentred_only_when_grabbed() {
    let mut w = InputWindow { grabbed: true, modifiers: 0 };
    let moved = WindowEvent::CursorMoved { window_width: 801, window_height: 600 };
    assert_eq!(
        w.handle_window_event(moved),
        Some(InputAction::SetCursorPosition { x: 400, y: 300 })
    );
    let mut w = InputWindow { grabbed: false, modifiers: 0 };
    assert_eq!(w.handle_window_event(moved), None);
    assert_eq!(w.handle_mouse_move(10, 10), None);
}

#[test]
fn close_and_destroy_quit() {
    let mut w = InputWindow { grabbed: true, modifiers: 5 };
    assert_eq!(w.handle_window_event(WindowEvent::CloseRequested), Some(InputAction::Quit));
    assert_eq!(w.handle_window_event(WindowEvent::Destroyed), Some(InputAction::Quit));
    assert_eq!(w.handle_window_event(WindowEvent::Other), None);
    assert_eq!(w, InputWindow { grabbed: true, modifiers: 5 });
}

#[test]
fn set_grab_is_idempotent() {
    let mut w = InputWindow { grabbed: false, modifiers: 0 };
    assert_eq!(w.set_grab(true), Some(InputAction::GrabCursor(true)));
    assert_eq!(w.set_grab(true), None);
    assert!(w.grabbed);
}

#[test]
fn title_follows_successful_grab() {
    assert_eq!(InputWindow::title_after_grab(true, true), Some(WindowTitle::Grabbed));
    assert_eq!(InputWindow::title_after_grab(false, true), Some(WindowTitle::Ungrabbed));
    assert_eq!(InputWindow::title_after_grab(true, false), None);
    assert_eq!(InputWindow::title_after_grab(false, false), None);
}

#[test]
fn title_texts() {
    assert_eq!(WindowTitle::Grabbed.text(), "Flatland Input (ctrl+esc to release cursor)");
    assert_eq!(WindowTitle::Ungrabbed.text(), "Flatland Input (click to grab input)");
}
