use win_lookaside::list::LOOKASIDE_LIST_SIZE;
use win_lookaside::{InitRequest, LookasideAlloc, LookasideList, NtStatus};

#[test]
fn new_handle_is_zero_filled() {
    let list = LookasideList::init();
    assert_eq!(list.as_ptr().len(), 0x60);
    assert_eq!(LOOKASIDE_LIST_SIZE, 0x60);
    assert!(list.as_ptr().iter().all(|byte| *byte == 0));
    assert_eq!(*list.as_ptr(), [0u8; 0x60]);
}

#[test]
fn as_ptr_gives_the_region_of_the_handle() {
    let list = LookasideList::init();
    assert!(std::ptr::eq(list.as_ptr(), list.as_ptr()));
    assert_eq!(std::mem::size_of_val(list.as_ptr()), 0x60);
    assert_eq!(std::mem::size_of::<LookasideList>(), 0x60);
}

#[test]
fn as_mut_ptr_writes_in_place() {
    let mut list = LookasideList::init();
    list.as_mut_ptr()[0] = 0xAB;
    list.as_mut_ptr()[0x5F] = 0xCD;
    assert_eq!(list.as_ptr()[0], 0xAB);
    assert_eq!(list.as_ptr()[0x5F], 0xCD);
    assert!(list.as_ptr()[1..0x5F].iter().all(|byte| *byte == 0));
}

#[test]
fn default_allocator_holds_a_zero_filled_handle() {
    let alloc = LookasideAlloc::default();
    let list = alloc.try_lock_list().expect("nobody holds the lock");
    assert_eq!(*list.as_ptr(), [0u8; 0x60]);
}

#[test]
fn try_lock_list_reaches_the_same_handle_every_time() {
    let alloc = LookasideAlloc::default();
    {
        let mut list = alloc.try_lock_list().expect("nobody holds the lock");
        list.as_mut_ptr()[3] = 7;
    }
    let list = alloc.try_lock_list().expect("nobody holds the lock");
    assert_eq!(list.as_ptr()[3], 7);
    assert!(std::ptr::eq(list.as_ptr(), list.as_ptr()));
}

#[test]
fn lock_is_released_when_the_guard_is_dropped() {
    let alloc = LookasideAlloc::default();
    for round in 0..100u8 {
        let mut list = alloc.try_lock_list().expect("nobody holds the lock");
        list.as_mut_ptr()[0] = round;
    }
    assert_eq!(alloc.try_lock_list().expect("nobody holds the lock").as_ptr()[0], 99);
}

#[test]
fn allocator_can_be_shared_between_threads() {
    fn shareable<T: Sync + Send>() {}
    shareable::<LookasideAlloc>();
}

#[test]
fn try_lock_list_gives_nothing_while_the_lock_is_held() {
    let alloc = LookasideAlloc::default();
    let first = alloc.try_lock_list();
    assert!(first.is_some());
    assert!(alloc.try_lock_list().is_none());
    assert!(alloc.try_lock_list().is_none());
    drop(first);
    assert!(alloc.try_lock_list().is_some());
}

#[test]
fn try_lock_list_returns_at_once_on_a_held_lock() {
    let alloc = LookasideAlloc::default();
    let mut held = alloc.try_lock_list().expect("nobody holds the lock");
    held.as_mut_ptr()[1] = 5;
    for _ in 0..1_000 {
        assert!(alloc.try_lock_list().is_none());
    }
    assert_eq!(held.as_ptr()[1], 5);
}

#[test]
fn try_lock_list_does_not_depend_on_the_state() {
    let mut alloc = LookasideAlloc::default();
    assert!(alloc.try_lock_list().is_some());
    alloc.init(InitRequest::new(4, 0, None, None), NtStatus(0)).unwrap();
    assert!(alloc.try_lock_list().is_some());
    alloc.destroy();
    assert!(alloc.try_lock_list().is_some());
}
