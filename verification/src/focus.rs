//! Terminal focus messages.
use vstd::prelude::*;

verus! {

/// FocusMsg is emitted when the terminal gains focus.
#[derive(Debug, Clone, Copy, PartialEq, Eq)]
pub struct FocusMsg;

/// BlurMsg is emitted when the terminal loses focus.
#[derive(Debug, Clone, Copy, PartialEq, Eq)]
pub struct BlurMsg;

} // verus!
