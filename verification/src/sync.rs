//! What this library takes from `std::sync` without proof.
//!
//! A lock and a condition variable coordinate threads, and nothing here
//! models threads. So the declarations below make the types and calls known
//! to the verifier and claim next to nothing of what the calls return: the
//! counter that a guard gives access to is whatever the other users of the
//! lock left there, and all that is known of it is what is known of every
//! [`Counter`](crate::counter::Counter). The one thing that is recorded is the
//! state that a lock was made with.
//!
//! Two things that `std` asks of its callers cannot be written as
//! preconditions and are kept by the way [`WaitGroup`](crate::WaitGroup) is
//! built. A thread must not lock a mutex that it already holds: each
//! operation of a wait group locks once and gives the lock up before it
//! returns. A condition variable must be used with one mutex only: a wait
//! group makes its mutex and its condition variable together and hands out
//! neither.

use crate::counter::Counter;
use crate::counter::State;
use std::ops::DerefMut;
use std::sync::Condvar;
use std::sync::Mutex;
use std::sync::MutexGuard;
use std::sync::PoisonError;
use vstd::prelude::*;

verus! {

/// `std::sync::Mutex`, opaque.
#[verifier::external_type_specification]
#[verifier::external_body]
#[verifier::reject_recursive_types(T)]
pub struct ExMutex<T: ?Sized>(Mutex<T>);

/// `std::sync::MutexGuard`, opaque.
#[verifier::external_type_specification]
#[verifier::external_body]
#[verifier::reject_recursive_types(T)]
pub struct ExMutexGuard<'a, T: ?Sized + 'a>(MutexGuard<'a, T>);

/// `std::sync::PoisonError`, opaque: what `lock` and `wait_while` return in
/// place of a guard when a thread panicked while it held the lock.
#[verifier::external_type_specification]
#[verifier::external_body]
#[verifier::reject_recursive_types(T)]
pub struct ExPoisonError<T>(PoisonError<T>);

/// `std::sync::Condvar`, opaque.
#[verifier::external_type_specification]
#[verifier::external_body]
pub struct ExCondvar(Condvar);

/// The state of the counter that a lock was made with.
///
/// This is a fact about the making of the lock and stays what it is for as
/// long as the lock exists. It is not what the lock holds now: that changes
/// with every addition, and has no name here.
pub uninterp spec fn initial_state(lock: Mutex<Counter>) -> State;

/// `Mutex::new` makes an unlocked mutex that holds `counter`. The contract
/// records the state of `counter` as what the lock was made with, and claims
/// nothing else of the result.
#[verifier::external_body]
pub(crate) fn new_lock(counter: Counter) -> (lock: Mutex<Counter>)
    ensures
        initial_state(lock) == counter@,
{
    Mutex::new(counter)
}

/// `Condvar::new` makes a condition variable on which no thread waits.
/// Nothing is claimed of the result.
pub assume_specification[ Condvar::new ]() -> (signal: Condvar)
;

/// `Mutex::lock` blocks until the calling thread holds the lock and returns
/// the guard, or an error if the lock is poisoned. Nothing is claimed of
/// either.
pub assume_specification<T: ?Sized>[ Mutex::<T>::lock ](mutex: &Mutex<T>) -> (locked: Result<
    MutexGuard<'_, T>,
    PoisonError<MutexGuard<'_, T>>,
>)
;

/// `DerefMut::deref_mut` of a `MutexGuard` gives access to the value behind
/// the lock. Nothing is claimed of that value.
pub assume_specification<'a, 'b, T: ?Sized>[ <MutexGuard<'a, T> as DerefMut>::deref_mut ](
    guard: &'b mut MutexGuard<'a, T>,
) -> (value: &'b mut T)
;

/// `Condvar::notify_all` wakes every thread that waits on the condition
/// variable. It returns nothing, and nothing is claimed of it.
pub assume_specification[ Condvar::notify_all ](signal: &Condvar)
;

/// `Condvar::wait_while` gives up the lock and lets the thread sleep on
/// `signal` until it is notified, again and again for as long as
/// [`Counter::is_active`] holds of the counter under the lock. It returns the
/// guard with the lock held again, or an error if the lock is poisoned.
/// Nothing is claimed of either.
#[verifier::external_body]
pub(crate) fn wait_while_active<'a>(signal: &Condvar, guard: MutexGuard<'a, Counter>) -> (woken:
    Result<MutexGuard<'a, Counter>, PoisonError<MutexGuard<'a, Counter>>>) {
    signal.wait_while(guard, |counter: &mut Counter| counter.is_active())
}

} // verus!
