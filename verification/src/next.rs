//! How a procedure asks its caller for work on the outside world.

use vstd::prelude::*;

verus! {

/// What a procedure does next.
#[derive(Debug)]
pub enum Next<A, R> {
    /// The caller is to perform this step, and to resume the procedure with what came of it.
    Perform(A),
    /// The procedure is over, and this is its result.
    Return(R),
}

} // verus!
