use vstd::prelude::*;
use vstd::std_specs::convert::FromSpecImpl;

verus! {

/// A mouse button, as callers name it.
#[derive(Debug, Clone, Copy, PartialEq, Eq, Structural)]
pub enum MouseButton {
    Left,
    Right,
    Middle,
}

/// A mouse button, as the worker names it.
#[derive(Debug, Clone, Copy, PartialEq, Eq, Structural)]
pub enum ButtonCode {
    MbtnLeft,
    MbtnRight,
    MbtnMid,
}

/// The fixed table from the caller's buttons to the worker's.
pub open spec fn button_code(btn: MouseButton) -> ButtonCode {
    match btn {
        MouseButton::Left => ButtonCode::MbtnLeft,
        MouseButton::Right => ButtonCode::MbtnRight,
        MouseButton::Middle => ButtonCode::MbtnMid,
    }
}

impl From<MouseButton> for ButtonCode {
    fn from(btn: MouseButton) -> (code: ButtonCode) {
        match btn {
            MouseButton::Left => ButtonCode::MbtnLeft,
            MouseButton::Right => ButtonCode::MbtnRight,
            MouseButton::Middle => ButtonCode::MbtnMid,
        }
    }
}

impl FromSpecImpl<MouseButton> for ButtonCode {
    open spec fn obeys_from_spec() -> bool {
        true
    }

    open spec fn from_spec(btn: MouseButton) -> ButtonCode {
        button_code(btn)
    }
}

/// The table loses nothing: two buttons with the same code are the same
/// button, and every code is the code of some button.
pub proof fn lemma_button_code_one_to_one(a: MouseButton, b: MouseButton, code: ButtonCode)
    ensures
        button_code(a) == button_code(b) ==> a == b,
        exists|btn: MouseButton| button_code(btn) == code,
{
    match code {
        ButtonCode::MbtnLeft => assert(button_code(MouseButton::Left) == code),
        ButtonCode::MbtnRight => assert(button_code(MouseButton::Right) == code),
        ButtonCode::MbtnMid => assert(button_code(MouseButton::Middle) == code),
    }
}

} // verus!
