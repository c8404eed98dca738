//! What the crate assumes of the lock, the condition variable and the shared
//! pointer of the standard library. Nothing in this file is proved. Of the
//! lock and the condition variable nothing is promised about a result: what a
//! lock holds is the business of whoever held it last.

use std::ops::DerefMut;
use std::sync::Arc;
use std::sync::Condvar;
use std::sync::LockResult;
use std::sync::Mutex;
use std::sync::MutexGuard;
use std::sync::PoisonError;
use vstd::prelude::*;

verus! {

/// `std::sync::Mutex`. Opaque.
#[verifier::external_type_specification]
#[verifier::external_body]
#[verifier::reject_recursive_types(T)]
pub struct ExMutex<T: ?Sized>(Mutex<T>);

/// `std::sync::MutexGuard`: the right to the value of a locked mutex. Opaque.
#[verifier::external_type_specification]
#[verifier::external_body]
#[verifier::reject_recursive_types(T)]
pub struct ExMutexGuard<'a, T: ?Sized + 'a>(MutexGuard<'a, T>);

/// `std::sync::PoisonError`: what a lock hands out after a thread panicked
/// while holding it. Opaque.
#[verifier::external_type_specification]
#[verifier::external_body]
#[verifier::reject_recursive_types(T)]
pub struct ExPoisonError<T>(PoisonError<T>);

/// `std::sync::Condvar`. Opaque.
#[verifier::external_type_specification]
#[verifier::external_body]
pub struct ExCondvar(Condvar);

/// `Mutex::new`. Nothing is claimed of the result.
pub assume_specification<T>[ Mutex::<T>::new ](t: T) -> (r: Mutex<T>);

/// `Mutex::lock` blocks until the lock is free. Nothing is claimed of the
/// result.
pub assume_specification<'a, T: ?Sized>[ Mutex::<T>::lock ](m: &'a Mutex<T>) -> (r: LockResult<
    MutexGuard<'a, T>,
>);

/// `Mutex::is_poisoned` tells whether a thread panicked while it held the
/// lock. Nothing is claimed of the result.
pub assume_specification<T: ?Sized>[ Mutex::<T>::is_poisoned ](m: &Mutex<T>) -> (r: bool);

/// `DerefMut::deref_mut` of a guard: the value behind the lock. Nothing is
/// claimed of that value, before or after.
#[verifier::external_body]
pub(crate) fn guarded<'a, 'b, T>(guard: &'a mut MutexGuard<'b, T>) -> (r: &'a mut T) {
    guard.deref_mut()
}

/// `Arc::clone`: a second pointer to the same value. The claim is that the
/// two point to one value, as the documentation of `Arc::clone` says.
#[verifier::external_body]
pub(crate) fn share<T>(a: &Arc<T>) -> (r: Arc<T>)
    ensures
        r == *a,
{
    a.clone()
}

/// `Condvar::new`. Nothing is claimed of the result.
pub assume_specification[ Condvar::new ]() -> (r: Condvar);

/// `Condvar::notify_all` wakes the threads that wait on the condition
/// variable. It returns nothing.
pub assume_specification[ Condvar::notify_all ](c: &Condvar);

} // verus!
