//! Requests for memory and the blocks that answer them.

use vstd::prelude::*;

verus! {

/// Size and alignment of a requested block.
#[derive(Copy, Clone, Debug, PartialEq, Eq, Structural)]
pub struct Layout {
    /// Number of bytes asked for.
    pub size: usize,
    /// Alignment asked for.
    pub align: usize,
}

/// An allocation failed: the facility had no block to give.
#[derive(Copy, Clone, Debug, PartialEq, Eq, Structural)]
pub struct AllocError;

/// A block handed out by the allocator: where it starts and how many bytes
/// the caller asked for.
#[derive(Copy, Clone, Debug, PartialEq, Eq, Structural)]
pub struct MemoryBlock {
    /// Address of the first byte; never null.
    pub addr: usize,
    /// Number of bytes of the request the block answers.
    pub size: usize,
}

impl MemoryBlock {
    /// A block starts at a non-null address.
    pub open spec fn wf(&self) -> bool {
        self.addr != 0
    }
}

} // verus!
