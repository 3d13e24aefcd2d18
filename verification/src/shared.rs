//! The lock under which the two handles of a subscription keep their record.
//!
//! To the verifier the record behind the lock is unknown each time the lock
//! is taken: another thread may have changed it since. So nothing here speaks
//! of what the lock holds; what an operation does to the record it finds is
//! stated on the record's own methods.

use crate::inner::ConsumerInner;
use parking_lot::Mutex;
use parking_lot::MutexGuard;
use std::sync::Arc;
use vstd::prelude::*;

verus! {

/// `parking_lot::RawMutex`, the lock without its data.
#[verifier::external_type_specification]
#[verifier::external_body]
pub struct ExRawMutex(parking_lot::RawMutex);

/// `lock_api::Mutex`, of which `parking_lot::Mutex` is an instance.
#[verifier::external_type_specification]
#[verifier::external_body]
#[verifier::reject_recursive_types(R)]
#[verifier::reject_recursive_types(T)]
pub struct ExMutex<R, T: ?Sized>(parking_lot::lock_api::Mutex<R, T>);

/// A taken lock: it holds the `parking_lot::MutexGuard`, and the lock is
/// released when it goes out of scope.
#[verifier::external_body]
pub(crate) struct Locked<'a> {
    guard: MutexGuard<'a, ConsumerInner>,
}

/// `Mutex::new` puts `state` behind a new lock.
#[verifier::external_body]
pub(crate) fn protect(state: ConsumerInner) -> (shared: Mutex<ConsumerInner>) {
    Mutex::new(state)
}

/// `Arc::clone` makes a second pointer to the same allocation: the copy stands
/// for the same lock.
#[verifier::external_body]
pub(crate) fn share(shared: &Arc<Mutex<ConsumerInner>>) -> (copy: Arc<Mutex<ConsumerInner>>)
    ensures
        copy == *shared,
{
    shared.clone()
}

/// `Mutex::lock` waits until the lock is free and takes it. It would not
/// return if the calling thread held the lock already; no function of this
/// library takes it twice.
#[verifier::external_body]
pub(crate) fn lock<'a>(shared: &'a Mutex<ConsumerInner>) -> (taken: Locked<'a>) {
    Locked { guard: shared.lock() }
}

/// `MutexGuard::deref_mut` gives access to the record behind a taken lock.
#[verifier::external_body]
pub(crate) fn record<'a, 'b>(taken: &'a mut Locked<'b>) -> (state: &'a mut ConsumerInner) {
    &mut *taken.guard
}

} // verus!
