//! Input events, decoded by the host from whatever terminal backend it uses.
use vstd::prelude::*;

verus! {

/// The key of a key press.
#[derive(Clone, Copy, Debug, PartialEq, Eq, Structural)]
pub enum KeyCode {
    /// A printable character.
    Char(char),
    /// The Enter (Return) key.
    Enter,
    /// The Escape key.
    Esc,
    /// The Backspace key.
    Backspace,
    /// Any other key: arrows, function keys, Tab and the like.
    Other,
}

/// A key press: its code and the modifier keys held with it, as a bit set
/// (`SHIFT`, `CONTROL`, `ALT`).
#[derive(Clone, Copy, Debug, PartialEq, Eq, Structural)]
pub struct KeyEvent {
    pub code: KeyCode,
    pub modifiers: u8,
}

/// No modifier key held.
pub const NONE: u8 = 0;

/// The Shift key.
pub const SHIFT: u8 = 1;

/// The Control key.
pub const CONTROL: u8 = 2;

/// The Alt key.
pub const ALT: u8 = 4;

impl KeyEvent {
    /// A key press with the given code and modifiers.
    pub fn new(code: KeyCode, modifiers: u8) -> (r: KeyEvent)
        ensures
            r.code == code,
            r.modifiers == modifiers,
    {
        KeyEvent { code, modifiers }
    }
}

/// A pointer event: where it happened on the screen.
#[derive(Clone, Copy, Debug, PartialEq, Eq, Structural)]
pub struct MouseEvent {
    pub column: u16,
    pub row: u16,
    pub modifiers: u8,
}

/// One decoded input event.
#[derive(Clone, Copy, Debug, PartialEq, Eq, Structural)]
pub enum Event {
    /// A key press.
    Key(KeyEvent),
    /// The terminal was resized to the given width and height.
    Resize(u16, u16),
    /// A pointer event.
    Mouse(MouseEvent),
    /// Any other event: focus changes, pasted text and the like.
    Other,
}

/// The host could not read the next input event.
#[derive(Clone, Copy, Debug, PartialEq, Eq, Structural)]
pub struct ReadError;

} // verus!
