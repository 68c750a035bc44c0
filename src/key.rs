use vstd::prelude::*;

verus! {

/// One key press, as delivered by the terminal's key source.
/// Only `Char` carries a payload.
#[derive(Clone, Copy, Debug, PartialEq, Eq, Structural)]
pub enum Key {
    Stop,
    Up,
    Down,
    Left,
    Right,
    CtrlLeft,
    CtrlRight,
    Home,
    End,
    Backspace,
    CtrlBackspace,
    Del,
    CtrlDel,
    Enter,
    Escape,
    Char(char),
    Unknown,
}

} // verus!
