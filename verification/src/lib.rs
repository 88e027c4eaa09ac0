//! A fixed-size-block allocator core on top of an operating-system lookaside list.
//!
//! The crate holds the decisions of the allocator: the lifecycle of the list
//! handle, the request that initialization hands to the backing facility, and
//! the outcome of each allocation. The calls into the facility itself are made
//! by the embedding code, which forwards what these functions return and hands
//! back what the facility answered.

pub mod allocator;
pub mod block;
pub mod lifecycle;
pub mod list;
pub mod lock;
pub mod request;
pub mod status;

pub use allocator::LookasideAlloc;
pub use block::{AllocError, Layout, MemoryBlock};
pub use list::LookasideList;
pub use request::{InitRequest, DEFAULT_POOL_TAG};
pub use status::{LookasideError, LookasideResult, NtStatus};
