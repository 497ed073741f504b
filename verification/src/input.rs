//! Raw input events and the input state that processors are shown.

use vstd::prelude::*;

pub mod collect;

verus! {

/// A key of the keyboard, by its key code.
#[derive(Clone, Copy, Debug, PartialEq, Eq, Hash)]
pub struct Key(pub u32);

#[derive(Clone, Copy, Debug, PartialEq, Eq, Hash)]
pub enum MouseButton {
    Left,
    Right,
    Middle,
    Other(u8),
}

#[derive(Clone, Copy, Debug, PartialEq, Eq)]
pub enum KeyboardAction {
    /// The key went down.
    Press(Key),
    /// The key went up.
    Release(Key),
    /// The key is held and repeats.
    Type(Key),
}

#[derive(Clone, Copy, Debug, PartialEq, Eq)]
pub enum MouseAction {
    /// The wheel moved; the two deltas are given as the bit patterns of
    /// 32-bit floats.
    Wheel(u32, u32),
    Move(i32, i32),
    Press(MouseButton),
    Release(MouseButton),
}

#[derive(Clone, Copy, Debug, PartialEq, Eq)]
pub enum RawInputEvent {
    Keyboard(KeyboardAction),
    Mouse(MouseAction),
}

/// The input state at the time of an event: where the mouse is.
#[derive(Clone, Copy, Debug, PartialEq, Eq)]
pub struct Input {
    pub mouse_x: i32,
    pub mouse_y: i32,
}

impl Input {
    /// The input state before any event: the mouse at the origin.
    pub fn new() -> (input: Self)
        ensures
            input == (Input { mouse_x: 0, mouse_y: 0 }),
    {
        Input { mouse_x: 0, mouse_y: 0 }
    }
}

} // verus!
