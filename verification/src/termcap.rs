//! Terminal capability queries (XTGETTCAP) and their reports.
use vstd::prelude::*;

use crate::model::{Cmd, Command, Msg};
use crate::text::{hex_bytes, push_hex_byte};
use vstd::string::StringSliceAdditionalSpecFns;

verus! {

/// RequestCapabilityMsg asks the program to query a terminal capability.
#[derive(Debug, Clone, PartialEq, Eq)]
pub struct RequestCapabilityMsg(pub String);

/// RequestCapability produces a command that queries the terminal capability
/// named `s`.
pub fn request_capability<M, W>(s: &str) -> (c: Cmd<M, W>)
    ensures
        c matches Some(Command::Emit(Msg::RequestCapability(m))) && m.0@ == s@,
{
    Some(Command::Emit(Msg::RequestCapability(RequestCapabilityMsg(s.to_owned()))))
}

/// CapabilityMsg reports a terminal capability.
#[derive(Debug, Clone, PartialEq, Eq)]
pub struct CapabilityMsg {
    /// Capability report.
    pub content: String,
}

impl CapabilityMsg {
    /// Returns the capability report, the message's textual form.
    pub fn to_string(&self) -> (s: String)
        ensures
            s@ == self.content@,
    {
        self.content.clone()
    }
}

/// The XTGETTCAP query for a capability whose name has the bytes `name`:
/// `DCS + q`, the name in upper-case hexadecimal, and `ST`.
pub open spec fn capability_query_spec(name: Seq<u8>) -> Seq<char> {
    "\x1bP+q"@ + hex_bytes(name, true) + "\x1b\\"@
}

/// Returns the XTGETTCAP query sequence for the capability named `name`.
pub fn capability_query(name: &str) -> (q: String)
    ensures
        q@ == capability_query_spec(name.spec_bytes()),
{
    let bytes = name.as_bytes();
    let mut q = "\x1bP+q".to_owned();
    let ghost start = q@;
    let mut i: usize = 0;
    while i < bytes.len()
        invariant
            i <= bytes@.len(),
            bytes@ == name.spec_bytes(),
            q@ == start + hex_bytes(bytes@.take(i as int), true),
        decreases bytes@.len() - i,
    {
        push_hex_byte(&mut q, bytes[i], true);
        assert(bytes@.take(i + 1).drop_last() == bytes@.take(i as int));
        i = i + 1;
    }
    assert(bytes@.take(bytes@.len() as int) == bytes@);
    q.append("\x1b\\");
    q
}

} // verus!
