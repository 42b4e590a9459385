//! Keyboard and pointer events of a remote client.

use vstd::prelude::*;

verus! {

/// What a client does on its keyboard.
#[derive(Debug, Clone, Copy, PartialEq, Eq, Structural)]
pub enum KeyboardEvent {
    /// A key of the given scan code goes down.
    Pressed { code: u8, extended: bool },
    /// A key of the given scan code goes up.
    Released { code: u8, extended: bool },
    /// A UTF-16 code unit is typed.
    UnicodePressed(u16),
    /// The key of a UTF-16 code unit goes up.
    UnicodeReleased(u16),
    /// The client reports the state of its lock keys.
    Synchronize(u8),
}

/// A button of a pointing device.
#[derive(Debug, Clone, Copy, PartialEq, Eq, Structural)]
pub enum MouseButton {
    Left,
    Right,
    Middle,
    X1,
    X2,
    /// A button that no desktop backend knows.
    Other,
}

/// What a client does with its pointing device.
#[allow(inconsistent_fields)]
#[derive(Debug, Clone, Copy, PartialEq, Eq, Structural)]
pub enum MouseEvent {
    /// The pointer is at a place of the client canvas.
    Move { x: u16, y: u16 },
    /// The pointer has moved by a distance.
    RelMove { x: i32, y: i32 },
    /// A button changes at a place of the client canvas.
    Button { x: u16, y: u16, button: MouseButton, pressed: bool },
    /// A button changes after the pointer has moved by a distance.
    ButtonRel { x: i32, y: i32, button: MouseButton, pressed: bool },
    /// The vertical wheel turns.
    VerticalScroll { value: i16 },
    /// The horizontal wheel turns.
    HorizontalScroll { value: i16 },
    /// Either wheel turns.
    Scroll { x: i32, y: i32 },
}

} // verus!
