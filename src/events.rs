use vstd::prelude::*;

verus! {

/// Whether a button or key went down or up.
#[derive(Debug, Copy, Clone, PartialEq, Eq, Hash, Structural)]
pub enum ElementState {
    Pressed,
    Released,
}

/// The portable set of pointer buttons.
#[derive(Debug, Copy, Clone, PartialEq, Eq, Hash, Structural)]
pub enum MouseButton {
    Left,
    Right,
    Middle,
}

/// A portable event, as delivered to a window's queue and to the
/// application.
#[derive(Debug, Copy, Clone, PartialEq, Eq, Hash, Structural)]
pub enum Event {
    /// The pointer moved to the given position inside the window.
    Moved(i32, i32),
    /// A pointer button changed state.
    MouseInput(ElementState, MouseButton),
    /// A key changed state; the number is the platform scancode.
    KeyboardInput(ElementState, u32),
    /// The window was asked to close.
    CloseRequested,
}

/// The state of a pointer button as the compositor protocol reports it.
#[derive(Debug, Copy, Clone, PartialEq, Eq, Hash, Structural)]
pub enum ButtonState {
    Released,
    Pressed,
}

/// Native code of the left pointer button.
pub const BTN_LEFT: u32 = 0x110;

/// Native code of the right pointer button.
pub const BTN_RIGHT: u32 = 0x111;

/// Native code of the middle pointer button.
pub const BTN_MIDDLE: u32 = 0x112;

/// The fixed table from native button codes to portable buttons.
pub open spec fn button_of(code: u32) -> Option<MouseButton> {
    if code == BTN_LEFT {
        Some(MouseButton::Left)
    } else if code == BTN_RIGHT {
        Some(MouseButton::Right)
    } else if code == BTN_MIDDLE {
        Some(MouseButton::Middle)
    } else {
        None
    }
}

/// The portable state of a native button state.
pub open spec fn element_state_of(s: ButtonState) -> ElementState {
    match s {
        ButtonState::Released => ElementState::Released,
        ButtonState::Pressed => ElementState::Pressed,
    }
}

/// Translates a native button code; codes outside the table give `None`.
pub fn translate_button(code: u32) -> (r: Option<MouseButton>)
    ensures
        r == button_of(code),
{
    if code == BTN_LEFT {
        Some(MouseButton::Left)
    } else if code == BTN_RIGHT {
        Some(MouseButton::Right)
    } else if code == BTN_MIDDLE {
        Some(MouseButton::Middle)
    } else {
        None
    }
}

/// Translates a native button state to the portable one.
pub fn translate_button_state(s: ButtonState) -> (r: ElementState)
    ensures
        r == element_state_of(s),
{
    match s {
        ButtonState::Released => ElementState::Released,
        ButtonState::Pressed => ElementState::Pressed,
    }
}

} // verus!
