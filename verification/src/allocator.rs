//! The allocator: a list handle behind a lock, and the flag that says whether
//! the facility has set the list up.

use crate::block::{AllocError, Layout, MemoryBlock};
use crate::lifecycle::{after_destroy, after_init, may_allocate, may_resize, must_delete, State};
use crate::list::LookasideList;
use crate::lock::{new_mutex, try_lock_mutex};
use crate::request::InitRequest;
use crate::status::{LookasideError, LookasideResult, NtStatus};
use vstd::pervasive::unreached;
use vstd::prelude::*;

verus! {

/// Lookaside list allocator.
///
/// The allocator decides; the embedding code talks to the facility. Each
/// operation here either says what to forward to the facility or takes what
/// the facility answered, and the handle is reached only through the lock.
pub struct LookasideAlloc {
    init: bool,
    block_size: usize,
    lookaside: spin::Mutex<LookasideList>,
}

impl View for LookasideAlloc {
    type V = State;

    closed spec fn view(&self) -> State {
        if self.init {
            State::Initialized { block_size: self.block_size }
        } else {
            State::Uninitialized
        }
    }
}

/// What initialization returns for the facility's answer `status`.
pub open spec fn init_outcome(status: NtStatus) -> LookasideResult<()> {
    if status.succeeded() {
        Ok(())
    } else {
        Err(LookasideError::InitError(status))
    }
}

/// What an allocation returns when the facility answered a request for
/// `layout` with `entry`: no block for a null entry, and otherwise the block
/// that starts at `entry` and has the size that was asked for.
pub open spec fn allocate_outcome(entry: usize, layout: Layout) -> Result<MemoryBlock, AllocError> {
    if entry == 0 {
        Err(AllocError)
    } else {
        Ok(MemoryBlock { addr: entry, size: layout.size })
    }
}

/// A null answer is an allocation error for every layout, and only a null
/// answer is: any other answer gives the block that starts there and has the
/// size asked for.
pub proof fn lemma_allocate_outcome(entry: usize, layout: Layout)
    ensures
        entry == 0 ==> allocate_outcome(entry, layout) == Err::<MemoryBlock, AllocError>(AllocError),
        allocate_outcome(entry, layout) is Ok <==> entry != 0,
        allocate_outcome(entry, layout) matches Ok(block) ==> block.wf() && block.addr == entry
            && block.size == layout.size,
{
}

impl LookasideAlloc {
    /// An allocator without a list, around a zero-filled handle.
    pub fn default() -> (alloc: Self)
        ensures
            alloc@ is Uninitialized,
    {
        LookasideAlloc {
            init: false,
            block_size: 0,
            lookaside: new_mutex(LookasideList::init()),
        }
    }

    /// Whether the facility has set the list up and it has not been torn down.
    pub fn is_initialized(&self) -> (initialized: bool)
        ensures
            initialized == (self@ is Initialized),
    {
        self.init
    }

    /// Takes the lock if nobody holds it and gives the handle behind it, to
    /// be forwarded to the facility; gives nothing if the lock is held. The
    /// call never waits. The lock is held until the guard is dropped.
    pub fn try_lock_list(&self) -> Option<spin::MutexGuard<'_, LookasideList>> {
        try_lock_mutex(&self.lookaside)
    }

    /// Whether a request for `layout` may go to the facility: there is a
    /// list, and its blocks are large enough.
    pub fn can_allocate(&self, layout: Layout) -> (ok: bool)
        ensures
            ok == may_allocate(self@, layout),
    {
        self.init && layout.size <= self.block_size
    }

    /// Records the facility's answer to `request`.
    ///
    /// On success the allocator has a list of blocks of `request.size` bytes.
    /// On failure nothing changes and the answer comes back as the error.
    pub fn init(&mut self, request: InitRequest, status: NtStatus) -> (result: LookasideResult<()>)
        ensures
            final(self)@ == after_init(old(self)@, request, status),
            result == init_outcome(status),
    {
        if status.is_err() {
            return Err(LookasideError::InitError(status));
        }
        self.init = true;
        self.block_size = request.size;
        Ok(())
    }

    /// Tears the allocator down. Returns whether there was a list, which the
    /// caller then has the facility delete; without one there is nothing to
    /// forward.
    pub fn destroy(&mut self) -> (delete_list: bool)
        ensures
            final(self)@ == after_destroy(old(self)@),
            delete_list == must_delete(old(self)@),
    {
        if self.init {
            self.init = false;
            true
        } else {
            false
        }
    }

    /// Turns the facility's answer to a request for `layout` into the result
    /// of the allocation. A null `entry` is the failure; any other is the
    /// start of the block, whose size is the size asked for.
    ///
    /// There must be a list, and a block is made only of an entry that the
    /// facility gave for a layout that fits the blocks of the list. Neither
    /// is tested here.
    pub fn allocate(&self, layout: Layout, entry: usize) -> (result: Result<MemoryBlock, AllocError>)
        requires
            self@ is Initialized,
            entry != 0 ==> may_allocate(self@, layout),
        ensures
            result == allocate_outcome(entry, layout),
            result matches Ok(block) ==> block.wf(),
    {
        if entry == 0 {
            return Err(AllocError);
        }
        Ok(MemoryBlock { addr: entry, size: layout.size })
    }

    /// Says what goes back to the facility when `block` is returned: the
    /// address at which the block starts, whatever the layout.
    pub fn deallocate(&self, block: MemoryBlock, layout: Layout) -> (entry: usize)
        requires
            self@ is Initialized,
            block.wf(),
        ensures
            entry == block.addr,
            entry != 0,
    {
        block.addr
    }

    /// Growing a block is not an operation of this allocator: no call is
    /// permitted, and none comes back with a block or with an error.
    pub fn grow(&self, ptr: usize, old_layout: Layout, new_layout: Layout) -> (result: Result<
        MemoryBlock,
        AllocError,
    >)
        requires
            may_resize(self@, ptr, old_layout, new_layout),
        ensures
            result !is Ok,
            result !is Err,
    {
        unreached()
    }

    /// Growing a block into zeroed memory is not an operation of this
    /// allocator: no call is permitted, and none comes back with a block or
    /// with an error.
    pub fn grow_zeroed(&self, ptr: usize, old_layout: Layout, new_layout: Layout) -> (result: Result<
        MemoryBlock,
        AllocError,
    >)
        requires
            may_resize(self@, ptr, old_layout, new_layout),
        ensures
            result !is Ok,
            result !is Err,
    {
        unreached()
    }

    /// Shrinking a block is not an operation of this allocator: no call is
    /// permitted, and none comes back with a block or with an error.
    pub fn shrink(&self, ptr: usize, old_layout: Layout, new_layout: Layout) -> (result: Result<
        MemoryBlock,
        AllocError,
    >)
        requires
            may_resize(self@, ptr, old_layout, new_layout),
        ensures
            result !is Ok,
            result !is Err,
    {
        unreached()
    }
}

impl Default for LookasideAlloc {
    fn default() -> (alloc: Self)
        ensures
            alloc@ is Uninitialized,
    {
        LookasideAlloc::default()
    }
}

} // verus!
