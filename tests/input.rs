use stremio_core_shell::input::{
    key_character, key_event, mouse_input_action, ClickButton, KeyEventKind, MouseAction,
    PointerButton, EVENTFLAG_CONTROL_DOWN, EVENTFLAG_NONE,
};

#[test]
fn mouse_buttons() {
    assert_eq!(mouse_input_action(false, PointerButton::Back), MouseAction::GoBack);
    assert_eq!(mouse_input_action(true, PointerButton::Back), MouseAction::Ignore);
    assert_eq!(mouse_input_action(false, PointerButton::Forward), MouseAction::GoForward);
    assert_eq!(
        mouse_input_action(true, PointerButton::Left),
        MouseAction::Click { button: ClickButton::Left, mouse_up: false }
    );
    assert_eq!(
        mouse_input_action(false, PointerButton::Middle),
        MouseAction::Click { button: ClickButton::Middle, mouse_up: true }
    );
    assert_eq!(mouse_input_action(true, PointerButton::Other(9)), MouseAction::Ignore);
}

#[test]
fn key_events() {
    assert_eq!(key_event(true, true), (KeyEventKind::KeyDown, EVENTFLAG_CONTROL_DOWN));
    assert_eq!(key_event(false, false), (KeyEventKind::KeyUp, EVENTFLAG_NONE));
    assert_eq!(key_character(true, "a"), Some(97));
    assert_eq!(key_character(true, "é!"), Some(0xE9));
    assert_eq!(key_character(true, "😀"), Some(0xF600));
    assert_eq!(key_character(false, "a"), None);
    assert_eq!(key_character(true, ""), None);
}
