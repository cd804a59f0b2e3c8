//! Input events reach the program as messages; the step between decoder and
//! event loop hands each decoded message on unchanged.
use vstd::prelude::*;

use crate::model::Msg;

verus! {

/// Translates a decoded input event into the message the program handles:
/// the message itself.
pub fn translate_input_event<M, W>(msg: Msg<M, W>) -> (r: Msg<M, W>)
    ensures
        r == msg,
{
    msg
}

} // verus!
