//! Results of operations that answer at once, ready or not.

use vstd::prelude::*;

verus! {

/// Why a non-blocking operation has no result to give.
#[derive(Clone, Copy, Debug, PartialEq, Eq)]
pub enum Blocked<E> {
    /// The operation failed.
    Other(E),
    /// The operation is not finished; asking again later may succeed.
    WouldBlock,
}

} // verus!
