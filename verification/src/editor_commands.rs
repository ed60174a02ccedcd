//! The abstract commands the editor understands. Key decoding lives outside
//! the library; it hands these plain values in.

use crate::size::Size;
use vstd::prelude::*;

verus! {

/// Cursor movement commands.
#[derive(Clone, Copy, PartialEq, Eq, Structural, Debug)]
pub enum Move {
    Up,
    Down,
    Left,
    Right,
    PageUp,
    PageDown,
    Home,
    End,
    WordJumpRight,
    WordJumpLeft,
}

/// Text mutation commands.
#[derive(Clone, Copy, PartialEq, Eq, Structural, Debug)]
pub enum Edit {
    Insert(char),
    Delete,
    Enter,
    Backspace,
    RemoveLine,
}

/// Session-level commands.
#[derive(Clone, Copy, PartialEq, Eq, Structural, Debug)]
pub enum System {
    Save,
    Quit,
    Resize(Size),
    ShowLineNumbers,
    Dismiss,
    Search,
}

/// Any command the editor processes in one atomic step.
#[derive(Clone, Copy, PartialEq, Eq, Structural, Debug)]
pub enum Command {
    Move(Move),
    Edit(Edit),
    System(System),
}

} // verus!
