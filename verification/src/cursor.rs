//! Cursor position, shape and configuration, and the cursor position query.
use vstd::prelude::*;

use crate::color::Color;
use crate::model::{emit, Cmd, Command, Msg};

verus! {

/// Position represents a position in the terminal.
#[derive(Debug, Clone, Copy, PartialEq, Eq, Structural)]
pub struct Position {
    /// Column.
    pub x: usize,
    /// Row.
    pub y: usize,
}

/// CursorPositionMsg reports the terminal cursor position.
#[derive(Debug, Clone, Copy, PartialEq, Eq)]
pub struct CursorPositionMsg {
    /// Column.
    pub x: usize,
    /// Row.
    pub y: usize,
}

/// CursorShape represents a terminal cursor shape.
#[derive(Debug, Clone, Copy, PartialEq, Eq, Structural)]
pub enum CursorShape {
    /// Block cursor.
    CursorBlock,
    /// Underline cursor.
    CursorUnderline,
    /// Bar cursor.
    CursorBar,
}

/// Cursor configuration of a view.
#[derive(Debug, Clone, Copy, PartialEq, Eq, Structural)]
pub struct Cursor {
    /// Cursor position.
    pub position: Position,
    /// Cursor shape.
    pub shape: CursorShape,
    /// Whether the cursor blinks.
    pub blink: bool,
    /// Cursor color, if one is set.
    pub color: Option<Color>,
}

impl Cursor {
    /// Returns a blinking block cursor with no color at the given position.
    pub fn new(x: usize, y: usize) -> (c: Cursor)
        ensures
            c == (Cursor {
                position: Position { x, y },
                shape: CursorShape::CursorBlock,
                blink: true,
                color: None,
            }),
    {
        Cursor { position: Position { x, y }, shape: CursorShape::CursorBlock, blink: true, color: None }
    }
}

/// RequestCursorPosMsg asks the program to query the cursor position.
#[derive(Debug, Clone, Copy, PartialEq, Eq)]
pub struct RequestCursorPosMsg;

/// RequestCursorPosition is a command that requests the cursor position,
/// which arrives as a `CursorPositionMsg`.
pub fn request_cursor_position<M, W>() -> (c: Cmd<M, W>)
    ensures
        c == emit(Msg::<M, W>::RequestCursorPosition(RequestCursorPosMsg)),
{
    Some(Command::Emit(Msg::RequestCursorPosition(RequestCursorPosMsg)))
}

} // verus!
