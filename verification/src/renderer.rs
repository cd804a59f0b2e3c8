//! Lines printed above the program's managed view.
use vstd::prelude::*;

use crate::model::{Cmd, Command, Msg};

verus! {

/// PrintLineMsg carries text printed above the program's view.
#[derive(Debug, Clone, PartialEq, Eq)]
pub struct PrintLineMsg {
    /// Text to print.
    pub message_body: String,
}

/// Println produces a command that prints `s` above the program; the text
/// persists across renders.
pub fn print_ln<M, W>(s: &str) -> (c: Cmd<M, W>)
    ensures
        c matches Some(Command::Emit(Msg::PrintLine(m))) && m.message_body@ == s@,
{
    Some(Command::Emit(Msg::PrintLine(PrintLineMsg { message_body: s.to_owned() })))
}

/// Printf produces a command that prints already formatted text `s` above
/// the program.
pub fn print_f<M, W>(s: &str) -> (c: Cmd<M, W>)
    ensures
        c matches Some(Command::Emit(Msg::PrintLine(m))) && m.message_body@ == s@,
{
    Some(Command::Emit(Msg::PrintLine(PrintLineMsg { message_body: s.to_owned() })))
}

} // verus!
