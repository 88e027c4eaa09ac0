//! The list handle: the memory region in which the backing facility keeps its
//! lookaside-list record.

use vstd::prelude::*;

verus! {

/// Number of bytes of the facility's list record.
pub const LOOKASIDE_LIST_SIZE: usize = 0x60;

/// Storage for the facility's list record. The bytes belong to the facility:
/// the allocator makes room for them and hands them over, and never reads a
/// meaning into them.
pub struct LookasideList {
    general_lookaside_pool: [u8; 0x60],
}

impl View for LookasideList {
    type V = Seq<u8>;

    closed spec fn view(&self) -> Seq<u8> {
        self.general_lookaside_pool@
    }
}

impl LookasideList {
    /// The region as it is before the facility has touched it: all zeroes.
    pub open spec fn zeroed() -> Seq<u8> {
        Seq::new(LOOKASIDE_LIST_SIZE as nat, |i: int| 0u8)
    }

    /// A zero-filled handle.
    pub fn init() -> (list: Self)
        ensures
            list@ == Self::zeroed(),
    {
        LookasideList { general_lookaside_pool: [0; 0x60] }
    }

    /// The region itself, for reading.
    pub fn as_ptr(&self) -> (region: &[u8; 0x60])
        ensures
            region@ == self@,
    {
        &self.general_lookaside_pool
    }

    /// The region itself, for handing to the facility, which writes its record
    /// into it in place.
    pub fn as_mut_ptr(&mut self) -> (region: &mut [u8; 0x60])
        ensures
            region@ == old(self)@,
            final(self)@ == final(region)@,
    {
        &mut self.general_lookaside_pool
    }

    /// The region always has the size of the facility's record.
    pub proof fn lemma_len(self)
        ensures
            self@.len() == LOOKASIDE_LIST_SIZE,
    {
    }
}

} // verus!
