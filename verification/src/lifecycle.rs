//! The lifecycle of an allocator as a state machine: what each operation does
//! to the state, and what holds of every sequence of operations.

use crate::block::Layout;
use crate::request::InitRequest;
use crate::status::NtStatus;
use vstd::prelude::*;

verus! {

/// Where an allocator stands.
pub enum State {
    /// No list: never initialized, or torn down since.
    Uninitialized,
    /// The facility has set up a list of blocks of `block_size` bytes, and it
    /// has not been torn down.
    Initialized { block_size: usize },
}

/// One operation on an allocator, with what the facility answered where it
/// was asked.
pub enum Event {
    /// The facility answered `request` with `status`.
    Init { request: InitRequest, status: NtStatus },
    /// Teardown.
    Destroy,
    /// The facility answered a request for a block with `entry`.
    Allocate { entry: usize, layout: Layout },
    /// The block at `entry` went back to the facility.
    Free { entry: usize },
}

/// The state after the facility answered `request` with `status`: a success
/// gives a list of blocks of the requested size, a failure changes nothing.
pub open spec fn after_init(pre: State, request: InitRequest, status: NtStatus) -> State {
    if status.succeeded() {
        State::Initialized { block_size: request.size }
    } else {
        pre
    }
}

/// The state after teardown: no list, whatever was there before.
pub open spec fn after_destroy(pre: State) -> State {
    State::Uninitialized
}

/// Teardown has something to forward to the facility exactly when there is a
/// list.
pub open spec fn must_delete(pre: State) -> bool {
    pre is Initialized
}

/// A request for `layout` may go to the facility: there is a list, and its
/// blocks are large enough.
pub open spec fn may_allocate(state: State, layout: Layout) -> bool {
    state matches State::Initialized { block_size } && layout.size <= block_size
}

/// The block at `ptr` may change from `old_layout` to `new_layout`. It never
/// may: every block of a list has the one size of the list, whatever the
/// state, the block and the layouts.
pub open spec fn may_resize(state: State, ptr: usize, old_layout: Layout, new_layout: Layout) -> bool {
    false
}

/// The state after one operation. Handing blocks out and taking them back
/// leaves it as it is.
pub open spec fn step(pre: State, event: Event) -> State {
    match event {
        Event::Init { request, status } => after_init(pre, request, status),
        Event::Destroy => after_destroy(pre),
        Event::Allocate { .. } => pre,
        Event::Free { .. } => pre,
    }
}

/// The state after a sequence of operations, first to last.
pub open spec fn run(pre: State, events: Seq<Event>) -> State
    decreases events.len(),
{
    if events.len() == 0 {
        pre
    } else {
        step(run(pre, events.drop_last()), events.last())
    }
}

/// The event is an initialization that the facility accepted.
pub open spec fn is_successful_init(event: Event) -> bool {
    event matches Event::Init { status, .. } && status.succeeded()
}

/// The event hands a block out or takes one back.
pub open spec fn is_block_traffic(event: Event) -> bool {
    event is Allocate || event is Free
}

/// Some initialization in `events` succeeded and no teardown follows it.
pub open spec fn has_live_init(events: Seq<Event>) -> bool {
    exists|i: int| is_live_init(events, i)
}

/// The event at `i` is an initialization that succeeded, and no teardown
/// follows it in `events`.
pub open spec fn is_live_init(events: Seq<Event>, i: int) -> bool {
    &&& 0 <= i < events.len()
    &&& is_successful_init(events[i])
    &&& forall|j: int| i < j < events.len() ==> !(#[trigger] events[j] is Destroy)
}

/// Teardown always ends without a list, and a second teardown, or one of an
/// allocator that never had a list, finds nothing to forward and changes
/// nothing.
pub proof fn lemma_destroy_idempotent(pre: State)
    ensures
        after_destroy(pre) is Uninitialized,
        after_destroy(after_destroy(pre)) == after_destroy(pre),
        !must_delete(after_destroy(pre)),
        !must_delete(State::Uninitialized),
        after_destroy(State::Uninitialized) == State::Uninitialized,
{
}

/// Resizing is never permitted: not with a list and not without one, for no
/// block and for no pair of layouts, not even for one that keeps the size or
/// makes it smaller.
pub proof fn lemma_resize_never_permitted(
    state: State,
    ptr: usize,
    old_layout: Layout,
    new_layout: Layout,
)
    ensures
        !may_resize(state, ptr, old_layout, new_layout),
{
}

/// The state follows the facility's answer: after a refused initialization of
/// an allocator without a list there is still none, after an accepted one
/// there is a list of the requested block size, and after teardown there is
/// none again.
pub proof fn lemma_state_gating(pre: State, request: InitRequest, status: NtStatus)
    ensures
        status.failed() ==> after_init(State::Uninitialized, request, status) is Uninitialized,
        status.failed() ==> after_init(pre, request, status) == pre,
        status.succeeded() ==> after_init(pre, request, status) == (State::Initialized {
            block_size: request.size,
        }),
        after_destroy(after_init(pre, request, status)) is Uninitialized,
{
}

/// Starting without a list, there is a list after a sequence of operations
/// exactly when some initialization in it succeeded and no teardown came
/// after that one.
pub proof fn lemma_initialized_iff_live_init(events: Seq<Event>)
    ensures
        run(State::Uninitialized, events) is Initialized <==> has_live_init(events),
    decreases events.len(),
{
    if events.len() > 0 {
        let front = events.drop_last();
        let last = events.last();
        let end = events.len() - 1;
        lemma_initialized_iff_live_init(front);
        if is_successful_init(last) {
            assert(is_live_init(events, end));
        } else if last is Destroy {
            assert forall|i: int| !is_live_init(events, i) by {
                if 0 <= i < end {
                    assert(events[end] is Destroy);
                }
            }
        } else {
            // The last operation changes nothing, and it is neither an
            // initialization that counts nor a teardown: a live
            // initialization of the whole sequence is one of its front.
            if has_live_init(front) {
                let i = choose|i: int| is_live_init(front, i);
                assert forall|j: int| i < j < events.len() implies !(#[trigger] events[j]
                    is Destroy) by {
                    if j < end {
                        assert(events[j] == front[j]);
                    }
                }
                assert(events[i] == front[i]);
                assert(is_live_init(events, i));
            }
            if has_live_init(events) {
                let i = choose|i: int| is_live_init(events, i);
                assert forall|j: int| i < j < front.len() implies !(#[trigger] front[j]
                    is Destroy) by {
                    assert(front[j] == events[j]);
                }
                assert(front[i] == events[i]);
                assert(is_live_init(front, i));
            }
        }
    }
}

/// Handing blocks out and taking them back, in any number and order, leaves
/// the state as it was.
pub proof fn lemma_block_traffic_keeps_state(pre: State, events: Seq<Event>)
    requires
        forall|i: int| 0 <= i < events.len() ==> is_block_traffic(#[trigger] events[i]),
    ensures
        run(pre, events) == pre,
    decreases events.len(),
{
    if events.len() > 0 {
        lemma_block_traffic_keeps_state(pre, events.drop_last());
        assert(is_block_traffic(events[events.len() - 1]));
    }
}

/// A request that may go to the facility may still go to it after any number
/// of blocks were handed out and taken back.
pub proof fn lemma_block_traffic_keeps_allocation_open(
    pre: State,
    events: Seq<Event>,
    layout: Layout,
)
    requires
        may_allocate(pre, layout),
        forall|i: int| 0 <= i < events.len() ==> is_block_traffic(#[trigger] events[i]),
    ensures
        may_allocate(run(pre, events), layout),
{
    lemma_block_traffic_keeps_state(pre, events);
}

} // verus!
