//! The one failure of the library: an index outside a container.

use vstd::prelude::*;

verus! {

/// An index that lies outside the container it was used on.
#[derive(Debug, Clone, Copy, PartialEq, Eq, Structural)]
pub struct OutOfBounds {
    /// The index that was asked for.
    pub index: usize,
    /// The number of items the container held.
    pub len: usize,
}

} // verus!
