use threedge::input::{CameraScroll, InputEvent, InputState, KeyCode};
use threedge::pressed_keys::Key;

#[test]
fn escape_released_with_focus_exits() {
    let mut input = InputState::new();
    input.handle_event(InputEvent::Key { code: KeyCode::Escape, pressed: true });
    assert!(!input.exit());
    input.handle_event(InputEvent::Key { code: KeyCode::Escape, pressed: false });
    assert!(input.exit());
}

#[test]
fn escape_without_focus_does_not_exit() {
    let mut input = InputState::new();
    input.handle_event(InputEvent::Focused(false));
    assert_eq!(input.take_focus_update(), Some(false));
    assert_eq!(input.take_focus_update(), None);
    input.handle_device_event(KeyCode::Escape, false);
    assert!(!input.exit());
}

#[test]
fn closing_the_window_exits() {
    let mut input = InputState::new();
    input.handle_event(InputEvent::Closed);
    assert!(input.exit());
}

#[test]
fn movement_keys_are_held_until_released() {
    let mut input = InputState::new();
    input.handle_event(InputEvent::Key { code: KeyCode::A, pressed: true });
    input.handle_event(InputEvent::Key { code: KeyCode::E, pressed: true });
    input.handle_event(InputEvent::Key { code: KeyCode::Other, pressed: true });
    assert!(input.test(Key::MoveLeft));
    assert!(input.test(Key::RollRight));
    assert!(!input.test(Key::MoveUp));
    input.handle_event(InputEvent::Key { code: KeyCode::A, pressed: false });
    assert!(!input.test(Key::MoveLeft));
    assert!(input.test(Key::RollRight));
}

#[test]
fn scrolling_accumulates_until_taken() {
    let mut input = InputState::new();
    input.handle_event(InputEvent::Scroll(3));
    input.handle_event(InputEvent::Scroll(-5));
    input.handle_event(InputEvent::Other);
    assert_eq!(input.take_scroll(), -2);
    assert_eq!(input.take_scroll(), 0);
}

#[test]
fn scrolling_is_held_within_i32() {
    let mut input = InputState::new();
    input.handle_event(InputEvent::Scroll(i32::MAX));
    input.handle_event(InputEvent::Scroll(10));
    assert_eq!(input.take_scroll(), i32::MAX);
    input.handle_event(InputEvent::Scroll(i32::MIN));
    input.handle_event(InputEvent::Scroll(-1));
    assert_eq!(input.take_scroll(), i32::MIN);
}
