use vstd::prelude::*;

verus! {

/// A key press, as the surrounding terminal shell delivers it.
#[derive(Clone, Copy, PartialEq, Eq, Structural, Debug)]
pub enum Key {
    Char(char),
    Ctrl(char),
    Up,
    Down,
    Left,
    Right,
    Enter,
    Esc,
}

/// Whether a component claimed a key press for itself.
#[derive(Clone, Copy, PartialEq, Eq, Structural, Debug)]
pub enum EventState {
    Consumed,
    NotConsumed,
}

} // verus!
