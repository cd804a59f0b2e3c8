//! A renderer that draws nothing, for headless programs and tests.
use vstd::prelude::*;

verus! {

/// A renderer that accepts every frame and writes nothing.
#[derive(Debug, Default, Clone, Copy, PartialEq, Eq)]
pub struct NilRenderer;

} // verus!
