//! The raw command: text sent to the terminal as it is.
use vstd::prelude::*;

use crate::model::{Cmd, Command, Msg};

verus! {

/// RawMsg carries text to send to the terminal as it is.
#[derive(Debug, Clone, PartialEq, Eq)]
pub struct RawMsg(pub String);

/// Raw produces a command that sends `s` to the terminal unchanged.
pub fn raw<M, W>(s: &str) -> (c: Cmd<M, W>)
    ensures
        c matches Some(Command::Emit(Msg::Raw(m))) && m.0@ == s@,
{
    Some(Command::Emit(Msg::Raw(RawMsg(s.to_owned()))))
}

} // verus!
