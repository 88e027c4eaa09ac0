//! What initialization asks of the backing facility.

use vstd::prelude::*;
use windows_sys::Wdk::Foundation::POOL_TYPE;

verus! {

/// Tag given to the facility when the caller names none: the bytes `s`, `r`,
/// `L`, `L` as they lie in memory, lowest address first.
pub const DEFAULT_POOL_TAG: u32 = 0x4C4C_7273;

/// The tag whose bytes in memory, lowest address first, are `bytes`.
pub open spec fn tag_of_bytes(bytes: Seq<u8>) -> u32
    recommends
        bytes.len() == 4,
{
    (bytes[0] as u32) | (bytes[1] as u32) << 8 | (bytes[2] as u32) << 16 | (bytes[3] as u32) << 24
}

/// The default tag reads `srLL` in memory.
pub proof fn lemma_default_pool_tag_reads_srll()
    ensures
        DEFAULT_POOL_TAG == tag_of_bytes(seq![0x73u8, 0x72u8, 0x4Cu8, 0x4Cu8]),
{
    assert(0x73u32 | 0x72u32 << 8 | 0x4Cu32 << 16 | 0x4Cu32 << 24 == 0x4C4C_7273u32)
        by (bit_vector);
}

/// Flags given to the facility when the caller names none.
pub const DEFAULT_FLAGS: u32 = 0;

/// Depth given to the facility: zero, which leaves the choice to it.
pub const DEFAULT_DEPTH: u16 = 0;

/// The arguments of one initialization of a list, as they go to the facility.
#[derive(Copy, Clone, Debug, PartialEq, Eq, Structural)]
pub struct InitRequest {
    /// Class of memory the blocks come from; passed on as given.
    pub pool_type: POOL_TYPE,
    /// Flags of the list.
    pub flags: u32,
    /// Size in bytes of every block of the list.
    pub size: usize,
    /// Tag under which the facility accounts the blocks.
    pub tag: u32,
    /// Number of blocks the list keeps back.
    pub depth: u16,
}

impl InitRequest {
    /// The request for blocks of `size` bytes from `pool_type`: the tag and
    /// the flags are the caller's where given and the defaults otherwise, and
    /// the depth is always the default.
    pub open spec fn requested(
        size: usize,
        pool_type: POOL_TYPE,
        tag: Option<u32>,
        flags: Option<u32>,
    ) -> InitRequest {
        InitRequest {
            pool_type,
            flags: match flags {
                Some(given) => given,
                None => DEFAULT_FLAGS,
            },
            size,
            tag: match tag {
                Some(given) => given,
                None => DEFAULT_POOL_TAG,
            },
            depth: DEFAULT_DEPTH,
        }
    }

    /// Builds the request that initialization forwards to the facility.
    pub fn new(size: usize, pool_type: POOL_TYPE, tag: Option<u32>, flags: Option<u32>) -> (request:
        Self)
        ensures
            request == Self::requested(size, pool_type, tag, flags),
    {
        InitRequest {
            pool_type,
            flags: flags.unwrap_or(DEFAULT_FLAGS),
            size,
            tag: tag.unwrap_or(DEFAULT_POOL_TAG),
            depth: DEFAULT_DEPTH,
        }
    }
}

} // verus!
