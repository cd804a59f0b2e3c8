//! Model initialization.
use vstd::prelude::*;

use crate::model::{Cmd, Model};

verus! {

/// Returns the first command of a model: what its `init` answers.
pub fn init_model<M, W, T: Model<M, W>>(m: &T) -> (c: Cmd<M, W>)
    ensures
        call_ensures(T::init, (m,), c),
{
    m.init()
}

} // verus!
