use crate::input::ButtonCode;
use crate::text::NativeText;
use vstd::prelude::*;

verus! {

/// One input action, as it is handed to the worker. A command is built for one
/// submission and not kept afterwards.
///
/// An `interval_ms` of `None` means that the worker's own interval applies.
/// Where it is `Some`, the value is the caller's at the time of submission;
/// the worker reads it, and may change it, in the caller's own variable.
#[derive(Debug)]
pub enum Command {
    MoveMouse { x: u32, y: u32, relative: bool },
    ClickMouse { button: ButtonCode, clicks: u32, hold_ms: u32 },
    PressMouse { button: ButtonCode, down: bool },
    PressKey { key: char, interval_ms: Option<u32>, down: bool },
    HoldKey { key: char, interval_ms: Option<u32>, hold_ms: u32 },
    TypeText { text: NativeText, interval_ms: Option<u32> },
}

/// What a command says, with a text standing as its bytes.
pub enum CommandView {
    MoveMouse { x: u32, y: u32, relative: bool },
    ClickMouse { button: ButtonCode, clicks: u32, hold_ms: u32 },
    PressMouse { button: ButtonCode, down: bool },
    PressKey { key: char, interval_ms: Option<u32>, down: bool },
    HoldKey { key: char, interval_ms: Option<u32>, hold_ms: u32 },
    TypeText { text: Seq<u8>, interval_ms: Option<u32> },
}

impl View for Command {
    type V = CommandView;

    open spec fn view(&self) -> CommandView {
        match *self {
            Command::MoveMouse { x, y, relative } => CommandView::MoveMouse { x, y, relative },
            Command::ClickMouse { button, clicks, hold_ms } => CommandView::ClickMouse {
                button,
                clicks,
                hold_ms,
            },
            Command::PressMouse { button, down } => CommandView::PressMouse { button, down },
            Command::PressKey { key, interval_ms, down } => CommandView::PressKey {
                key,
                interval_ms,
                down,
            },
            Command::HoldKey { key, interval_ms, hold_ms } => CommandView::HoldKey {
                key,
                interval_ms,
                hold_ms,
            },
            Command::TypeText { text, interval_ms } => CommandView::TypeText {
                text: text@,
                interval_ms,
            },
        }
    }
}

/// The single byte that stands for a key on the worker's side: the low eight
/// bits of the character's code point.
pub open spec fn key_byte(key: char) -> u8 {
    ((key as u32) & 0xFF) as u8
}

/// Computes the byte that the worker is given for a key. A character up to
/// U+00FF is its own code point; a larger one is cut down to its low byte.
pub fn native_key(key: char) -> (byte: u8)
    ensures
        byte == key_byte(key),
        key as u32 <= 0xFF ==> byte as u32 == key as u32,
{
    let point: u32 = key as u32;
    let low: u32 = point & 0xFF;
    assert(low <= 0xFF) by (bit_vector)
        requires
            low == point & 0xFF,
    ;
    assert(point <= 0xFF ==> low == point) by (bit_vector)
        requires
            low == point & 0xFF,
    ;
    low as u8
}

} // verus!
