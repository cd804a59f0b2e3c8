//! Terminal name and version queries (XTVERSION).
use vstd::prelude::*;

use crate::model::{emit, Cmd, Command, Msg};

verus! {

/// TerminalVersionMsg reports the terminal name and version.
#[derive(Debug, Clone, PartialEq, Eq)]
pub struct TerminalVersionMsg {
    /// Terminal name and version.
    pub name: String,
}

impl TerminalVersionMsg {
    /// Returns the terminal name and version, the message's textual form.
    pub fn to_string(&self) -> (s: String)
        ensures
            s@ == self.name@,
    {
        self.name.clone()
    }
}

/// RequestTerminalVersionMsg asks the program to query the terminal version.
#[derive(Debug, Clone, Copy, PartialEq, Eq)]
pub struct RequestTerminalVersionMsg;

/// RequestTerminalVersion produces a command that queries the terminal name
/// and version.
pub fn request_terminal_version<M, W>() -> (c: Cmd<M, W>)
    ensures
        c == emit(Msg::<M, W>::RequestTerminalVersion(RequestTerminalVersionMsg)),
{
    Some(Command::Emit(Msg::RequestTerminalVersion(RequestTerminalVersionMsg)))
}

} // verus!
