//! Screen-cell coordinates and the vocabulary of terminal draw operations.
//!
//! The core never touches the terminal itself: rendering produces a sequence
//! of [`TermOp`] values, and an unverified shell executes them against the
//! real device.

use vstd::prelude::*;

verus! {

/// A viewport size in character cells.
#[derive(Clone, Copy, PartialEq, Eq, Structural, Debug)]
pub struct Size {
    pub height: usize,
    pub width: usize,
}

/// A zero-based screen-cell position: `x` is the column, `y` the row.
#[derive(Clone, Copy, PartialEq, Eq, Structural, Debug)]
pub struct Position {
    pub x: usize,
    pub y: usize,
}

impl Default for Position {
    /// The origin, top-left of the screen.
    fn default() -> (p: Position)
        ensures
            p.x == 0,
            p.y == 0,
    {
        Position { x: 0, y: 0 }
    }
}

/// One queued terminal output operation.
///
/// A frame is a sequence of these; nothing becomes visible until `Flush`.
#[derive(PartialEq, Debug)]
pub enum TermOp {
    /// Move the hardware caret to `pos`.
    MoveCaretTo { pos: Position },
    /// Clear the row the caret is on.
    ClearLine,
    /// Print `text` at the caret.
    Print { text: String },
    /// Hide the hardware caret.
    HideCaret,
    /// Show the hardware caret.
    ShowCaret,
    /// Make all queued output visible.
    Flush,
}

} // verus!
