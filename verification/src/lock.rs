//! The spin lock that guards the list handle.

use crate::list::LookasideList;
use vstd::prelude::*;

verus! {

/// `spin::mutex::Mutex`: a value behind a spin lock. Nothing is known of the
/// value inside.
#[verifier::external_type_specification]
#[verifier::external_body]
#[verifier::reject_recursive_types(T)]
#[verifier::reject_recursive_types(R)]
pub struct ExMutex<T: ?Sized, R>(spin::mutex::Mutex<T, R>);

/// `spin::mutex::MutexGuard`: the held lock, through which the value inside
/// is reached; dropping it releases the lock.
#[verifier::external_type_specification]
#[verifier::external_body]
#[verifier::reject_recursive_types(T)]
pub struct ExMutexGuard<'a, T: 'a + ?Sized>(spin::mutex::MutexGuard<'a, T>);

/// `spin::relax::Spin`: the way a waiting thread passes its time, and the
/// second parameter of the lock's type.
#[verifier::external_type_specification]
#[verifier::external_body]
pub struct ExSpin(spin::relax::Spin);

/// `spin::Mutex::new`: puts the handle behind a lock that nobody holds.
#[verifier::external_body]
pub(crate) fn new_mutex(list: LookasideList) -> spin::Mutex<LookasideList> {
    spin::Mutex::new(list)
}

/// `spin::Mutex::try_lock`: takes the lock if it is free at this moment and
/// gives the guard; gives nothing if somebody holds it. The call returns
/// either way. Which of the two happens depends on the other holders, and
/// nothing is claimed of the handle behind the lock: whoever held it before
/// may have changed it.
#[verifier::external_body]
pub(crate) fn try_lock_mutex(mutex: &spin::Mutex<LookasideList>) -> Option<
    spin::MutexGuard<'_, LookasideList>,
> {
    mutex.try_lock()
}

} // verus!
