//! Window size, screen clearing and terminal mode reports.
use vstd::prelude::*;

use crate::model::{emit, Cmd, Command, Msg};

verus! {

/// WindowSizeMsg reports the terminal size.
#[derive(Debug, Clone, Copy, PartialEq, Eq)]
pub struct WindowSizeMsg {
    /// Width in columns.
    pub width: usize,
    /// Height in rows.
    pub height: usize,
}

/// ClearScreenMsg asks the program to clear the screen.
#[derive(Debug, Clone, Copy, PartialEq, Eq)]
pub struct ClearScreenMsg;

/// ClearScreen returns a command that clears the screen.
pub fn clear_screen<M, W>() -> (c: Cmd<M, W>)
    ensures
        c == emit(Msg::<M, W>::ClearScreen(ClearScreenMsg)),
{
    Some(Command::Emit(Msg::ClearScreen(ClearScreenMsg)))
}

/// ModeReportMsg is a terminal mode report (DECRPM).
#[derive(Debug, Clone, Copy, PartialEq, Eq)]
pub struct ModeReportMsg {
    /// Mode number.
    pub mode: u32,
    /// Mode setting.
    pub value: u32,
}

} // verus!
