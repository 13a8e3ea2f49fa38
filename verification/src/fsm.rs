//! The result shape both state machines share.

use vstd::prelude::*;

verus! {

/// What one `process` call did: either the machine wants another turn and
/// hands itself back, or it is finished and yields its product.
pub enum FsmResult<M, R> {
    /// The machine needs more turns; drive the I/O loop again.
    Continue(M),
    /// The machine is done; it is consumed and this is its product.
    Done(R),
}

} // verus!
