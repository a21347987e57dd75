use witer::window::input::{ButtonState, Input, Key, KeyState, Mouse};
use witer::window::stage::Stage;

#[test]
fn fresh_input_reads_everything_released() {
    let input = Input::new();
    assert_eq!(input.key(Key { code: 0 }), KeyState::Released);
    assert_eq!(input.key(Key { code: 255 }), KeyState::Released);
    assert_eq!(input.mouse(Mouse::Left), ButtonState::Released);
    assert_eq!(input.shift(), KeyState::Released);
    assert_eq!(input.ctrl(), KeyState::Released);
    assert_eq!(input.alt(), KeyState::Released);
    assert_eq!(input.win(), KeyState::Released);
}

#[test]
fn updates_record_and_out_of_table_codes_are_ignored() {
    let mut input = Input::new();
    input.update_key(Key { code: 0x10 }, KeyState::Held(3));
    assert_eq!(input.shift(), KeyState::Held(3));
    assert_eq!(input.key(Key { code: 0x10 }), KeyState::Held(3));
    assert_eq!(input.key(Key { code: 0x11 }), KeyState::Released);

    // A code past the table neither panics nor reads back.
    input.update_key(Key { code: 300 }, KeyState::Pressed);
    assert_eq!(input.key(Key { code: 300 }), KeyState::Released);

    input.update_mouse(Mouse::Forward, ButtonState::Pressed);
    assert_eq!(input.mouse(Mouse::Forward), ButtonState::Pressed);
    assert_eq!(input.mouse(Mouse::Back), ButtonState::Released);
}

#[test]
fn stage_closing_test_covers_the_late_stages() {
    assert!(!Stage::Setup.is_closing());
    assert!(!Stage::Ready.is_closing());
    assert!(!Stage::Looping.is_closing());
    assert!(Stage::Closing.is_closing());
    assert!(Stage::Destroyed.is_closing());
    assert!(Stage::ExitLoop.is_closing());
}
