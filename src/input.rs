//! What the overlay's browser is sent for window input: which mouse buttons
//! click and which navigate, and how key presses are flagged.
use vstd::prelude::*;

verus! {

/// A mouse button as the window reports it.
#[derive(Clone, Copy, Debug, PartialEq, Eq, Structural)]
pub enum PointerButton {
    Left,
    Right,
    Middle,
    Back,
    Forward,
    Other(u16),
}

/// A button that the browser receives clicks of.
#[derive(Clone, Copy, Debug, PartialEq, Eq, Structural)]
pub enum ClickButton {
    Left,
    Right,
    Middle,
}

/// What a mouse button event does in the overlay.
#[derive(Clone, Copy, Debug, PartialEq, Eq, Structural)]
pub enum MouseAction {
    /// Navigate back in the browser's history.
    GoBack,
    /// Navigate forward in the browser's history.
    GoForward,
    /// Send a single click, down or up, of a button.
    Click { button: ClickButton, mouse_up: bool },
    /// Nothing.
    Ignore,
}

/// The action for a button press (`pressed`) or release: the back and
/// forward buttons navigate on release, the three main buttons click.
pub open spec fn mouse_action(pressed: bool, button: PointerButton) -> MouseAction {
    match button {
        PointerButton::Back => if pressed {
            MouseAction::Ignore
        } else {
            MouseAction::GoBack
        },
        PointerButton::Forward => if pressed {
            MouseAction::Ignore
        } else {
            MouseAction::GoForward
        },
        PointerButton::Left => MouseAction::Click { button: ClickButton::Left, mouse_up: !pressed },
        PointerButton::Right => MouseAction::Click { button: ClickButton::Right, mouse_up: !pressed },
        PointerButton::Middle => MouseAction::Click {
            button: ClickButton::Middle,
            mouse_up: !pressed,
        },
        PointerButton::Other(_) => MouseAction::Ignore,
    }
}

pub fn mouse_input_action(pressed: bool, button: PointerButton) -> (r: MouseAction)
    ensures
        r == mouse_action(pressed, button),
{
    let mouse_up = !pressed;
    match button {
        PointerButton::Back => if mouse_up {
            MouseAction::GoBack
        } else {
            MouseAction::Ignore
        },
        PointerButton::Forward => if mouse_up {
            MouseAction::GoForward
        } else {
            MouseAction::Ignore
        },
        PointerButton::Left => MouseAction::Click { button: ClickButton::Left, mouse_up },
        PointerButton::Right => MouseAction::Click { button: ClickButton::Right, mouse_up },
        PointerButton::Middle => MouseAction::Click { button: ClickButton::Middle, mouse_up },
        PointerButton::Other(_) => MouseAction::Ignore,
    }
}

/// Modifier flag of a key event with the control key held.
pub const EVENTFLAG_CONTROL_DOWN: u32 = 4;

/// Modifier flags of a key event without any.
pub const EVENTFLAG_NONE: u32 = 0;

/// The kind of a key event sent to the browser.
#[derive(Clone, Copy, Debug, PartialEq, Eq, Structural)]
pub enum KeyEventKind {
    KeyDown,
    KeyUp,
    Char,
}

/// The raw key event for a physical key: down or up, with the control
/// modifier flagged when held.
pub fn key_event(pressed: bool, control: bool) -> (r: (KeyEventKind, u32))
    ensures
        r.0 == (if pressed {
            KeyEventKind::KeyDown
        } else {
            KeyEventKind::KeyUp
        }),
        r.1 == (if control {
            EVENTFLAG_CONTROL_DOWN
        } else {
            EVENTFLAG_NONE
        }),
{
    let kind = if pressed {
        KeyEventKind::KeyDown
    } else {
        KeyEventKind::KeyUp
    };
    let modifiers = if control {
        EVENTFLAG_CONTROL_DOWN
    } else {
        EVENTFLAG_NONE
    };
    (kind, modifiers)
}

/// The character event for a key press that produced `text`: the low
/// sixteen bits of its first character.  Releases and empty text send none.
pub fn key_character(pressed: bool, text: &str) -> (r: Option<u16>)
    ensures
        pressed && text@.len() > 0 ==> r == Some(((text@[0] as u32) % 0x10000) as u16),
        !pressed || text@.len() == 0 ==> r is None,
{
    if !pressed || text.unicode_len() == 0 {
        return None;
    }
    let c = text.get_char(0);
    Some(((c as u32) % 0x10000) as u16)
}

} // verus!
