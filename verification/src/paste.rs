//! Bracketed-paste messages.
use vstd::prelude::*;

verus! {

/// PasteMsg is emitted when the terminal receives pasted text.
#[derive(Debug, Clone, PartialEq, Eq)]
pub struct PasteMsg {
    /// Pasted text.
    pub content: String,
}

impl PasteMsg {
    /// Returns the pasted text, the message's textual form.
    pub fn to_string(&self) -> (s: String)
        ensures
            s@ == self.content@,
    {
        self.content.clone()
    }
}

/// PasteStartMsg is emitted when a bracketed paste starts.
#[derive(Debug, Clone, Copy, PartialEq, Eq)]
pub struct PasteStartMsg;

/// PasteEndMsg is emitted when a bracketed paste ends.
#[derive(Debug, Clone, Copy, PartialEq, Eq)]
pub struct PasteEndMsg;

} // verus!
