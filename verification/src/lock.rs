//! The lock that makes each operation on a shared cell one indivisible step:
//! `std::sync::Mutex`, reached through the few calls below.
//!
//! While a guard is held the channel runs only its own verified transitions:
//! no waker is cloned, woken or dropped there, and no value of the caller's
//! type is dropped there. (A transition may copy the `Arc` that holds the
//! registered waker, which runs none of the waker's code.) So a thread that
//! holds the lock never asks for it again, and never panics while it holds
//! it.

use vstd::prelude::*;
use std::sync::{Mutex, MutexGuard};

verus! {

/// `std::sync::Mutex`.
#[verifier::external_type_specification]
#[verifier::external_body]
#[verifier::reject_recursive_types(T)]
pub struct ExMutex<T: ?Sized>(Mutex<T>);

/// `std::sync::MutexGuard`: the proof of holding a `Mutex`, and the way to
/// what it protects.
#[verifier::external_type_specification]
#[verifier::external_body]
#[verifier::reject_recursive_types(T)]
pub struct ExMutexGuard<'a, T: ?Sized + 'a>(MutexGuard<'a, T>);

/// `Mutex::new` puts a value under a new lock. What the lock holds later is
/// decided by whoever locks it, so nothing is claimed of the result.
pub assume_specification<T>[ Mutex::<T>::new ](t: T) -> (m: Mutex<T>);

/// `Mutex::lock` waits until the lock is free and takes it. A poisoned lock
/// is taken all the same, through `PoisonError::into_inner`, so the call
/// never fails. Nothing is claimed of what the lock protects. The claim made
/// is that the call does not unwind: `lock` may panic only when the calling
/// thread holds the lock already, which the channel never does (see the
/// module's note).
#[verifier::external_body]
pub(crate) fn lock<V>(m: &Mutex<V>) -> (guard: MutexGuard<'_, V>)
    opens_invariants none
    no_unwind
{
    match m.lock() {
        Ok(guard) => guard,
        Err(poisoned) => poisoned.into_inner(),
    }
}

/// `DerefMut::deref_mut` of a guard: the value under the lock, for as long
/// as the guard is borrowed. Other threads may have changed it since it was
/// last seen, so nothing is claimed of it.
#[verifier::external_body]
pub(crate) fn held<'a, 'b, V>(guard: &'a mut MutexGuard<'b, V>) -> (v: &'a mut V)
    opens_invariants none
    no_unwind
{
    std::ops::DerefMut::deref_mut(guard)
}

/// Dropping a guard gives the lock back.
#[verifier::external_body]
pub(crate) fn unlock<V>(guard: MutexGuard<'_, V>)
    opens_invariants none
    no_unwind
{
    drop(guard)
}

} // verus!
