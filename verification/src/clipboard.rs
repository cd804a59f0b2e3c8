//! Terminal clipboard commands (OSC 52): setting and reading the system and
//! primary clipboards, and the clipboard read message.
use vstd::prelude::*;

use crate::model::{emit, Cmd, Command, Msg};

verus! {

/// ClipboardMsg is emitted when the terminal answers a clipboard read.
#[derive(Debug, Clone, PartialEq, Eq)]
pub struct ClipboardMsg {
    /// Clipboard content.
    pub content: String,
    /// Selection byte: `c` for the system clipboard, `p` for the primary one.
    pub selection: u8,
}

impl ClipboardMsg {
    /// Returns the clipboard selection: `c` for the system clipboard, `p` for
    /// the primary clipboard (X11/Wayland only).
    pub fn clipboard(&self) -> (b: u8)
        ensures
            b == self.selection,
    {
        self.selection
    }

    /// Returns the clipboard content, the message's textual form.
    pub fn to_string(&self) -> (s: String)
        ensures
            s@ == self.content@,
    {
        self.content.clone()
    }
}

/// SetClipboardMsg asks the program to set the system clipboard.
#[derive(Debug, Clone, PartialEq, Eq)]
pub struct SetClipboardMsg(pub String);

/// ReadClipboardMsg asks the program to read the system clipboard.
#[derive(Debug, Clone, Copy, PartialEq, Eq)]
pub struct ReadClipboardMsg;

/// SetPrimaryClipboardMsg asks the program to set the primary clipboard.
#[derive(Debug, Clone, PartialEq, Eq)]
pub struct SetPrimaryClipboardMsg(pub String);

/// ReadPrimaryClipboardMsg asks the program to read the primary clipboard.
#[derive(Debug, Clone, Copy, PartialEq, Eq)]
pub struct ReadPrimaryClipboardMsg;

/// SetClipboard produces a command that sets the system clipboard to `s`.
pub fn set_clipboard<M, W>(s: &str) -> (c: Cmd<M, W>)
    ensures
        c matches Some(Command::Emit(Msg::SetClipboard(m))) && m.0@ == s@,
{
    Some(Command::Emit(Msg::SetClipboard(SetClipboardMsg(s.to_owned()))))
}

/// ReadClipboard produces a command that reads the system clipboard.
pub fn read_clipboard<M, W>() -> (c: Cmd<M, W>)
    ensures
        c == emit(Msg::<M, W>::ReadClipboard(ReadClipboardMsg)),
{
    Some(Command::Emit(Msg::ReadClipboard(ReadClipboardMsg)))
}

/// SetPrimaryClipboard produces a command that sets the primary clipboard to
/// `s`.
pub fn set_primary_clipboard<M, W>(s: &str) -> (c: Cmd<M, W>)
    ensures
        c matches Some(Command::Emit(Msg::SetPrimaryClipboard(m))) && m.0@ == s@,
{
    Some(Command::Emit(Msg::SetPrimaryClipboard(SetPrimaryClipboardMsg(s.to_owned()))))
}

/// ReadPrimaryClipboard produces a command that reads the primary clipboard.
pub fn read_primary_clipboard<M, W>() -> (c: Cmd<M, W>)
    ensures
        c == emit(Msg::<M, W>::ReadPrimaryClipboard(ReadPrimaryClipboardMsg)),
{
    Some(Command::Emit(Msg::ReadPrimaryClipboard(ReadPrimaryClipboardMsg)))
}

} // verus!
