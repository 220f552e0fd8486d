//! The state that all handles of a channel share, behind the standard
//! library's lock and condition variable.
//!
//! Nothing in this file is proved. Each item says what the channel relies on.
//! None promises anything about the guarded value: whenever the lock is
//! taken, another thread may have changed it.

use std::sync::Arc;
use std::sync::Condvar;
use std::sync::Mutex;
use std::sync::MutexGuard;
use std::sync::PoisonError;
use vstd::prelude::*;

use crate::channels::inner::Inner;

verus! {

/// `std::sync::Mutex`, opaque to the verifier.
#[verifier::external_type_specification]
#[verifier::external_body]
#[verifier::reject_recursive_types(T)]
pub struct ExMutex<T: ?Sized>(Mutex<T>);

/// `std::sync::MutexGuard`, opaque to the verifier.
#[verifier::external_type_specification]
#[verifier::external_body]
#[verifier::reject_recursive_types(T)]
pub struct ExMutexGuard<'a, T: ?Sized + 'a>(MutexGuard<'a, T>);

/// `std::sync::PoisonError`, opaque to the verifier.
#[verifier::external_type_specification]
#[verifier::external_body]
#[verifier::reject_recursive_types(T)]
pub struct ExPoisonError<T>(PoisonError<T>);

/// `std::sync::Condvar`, opaque to the verifier.
#[verifier::external_type_specification]
#[verifier::external_body]
pub struct ExCondvar(Condvar);

/// `Mutex::new` wraps a value in an unlocked mutex.
pub assume_specification<T>[ Mutex::<T>::new ](value: T) -> (mutex: Mutex<T>)
;

/// `Condvar::new` makes a condition variable that nothing waits on.
pub assume_specification[ Condvar::new ]() -> (available: Condvar)
;

/// What every handle of one channel points to: the guarded state and the
/// signal on which the receiver waits. The signal is only ever used together
/// with this lock.
#[verifier::reject_recursive_types(T)]
pub(crate) struct Shared<T> {
    inner: Mutex<Inner<T>>,
    available: Condvar,
}

/// The lock, or the news that a thread panicked while it held the lock.
pub(crate) type Locked<'a, T> = Result<
    MutexGuard<'a, Inner<T>>,
    PoisonError<MutexGuard<'a, Inner<T>>>,
>;

impl<T> Shared<T> {
    /// The shared state of a new channel, unlocked.
    pub(crate) fn new() -> Self {
        Shared { inner: Mutex::new(Inner::new()), available: Condvar::new() }
    }
}

/// `Mutex::lock` on the channel's lock: blocks until the lock is free and
/// hands out the guard, or an error if a thread panicked while it held the
/// lock. It returns once the current holder lets go, which every holder in
/// this crate does; it does not unwind as long as the calling thread does not
/// hold the lock already, and no function of this crate takes it twice.
#[verifier::external_body]
pub(crate) fn lock<T>(shared: &Shared<T>) -> (guard: Locked<'_, T>)
    opens_invariants none
    no_unwind
{
    shared.inner.lock()
}

/// `DerefMut::deref_mut` on the guard: the guarded value. What it holds is
/// whatever the last holder of the lock left there, and what is written to it
/// is what the next holder finds.
#[verifier::external_body]
pub(crate) fn held<'a, 'g, T>(guard: &'a mut MutexGuard<'g, Inner<T>>) -> (inner: &'a mut Inner<T>)
    opens_invariants none
    no_unwind
{
    std::ops::DerefMut::deref_mut(guard)
}

/// `Condvar::wait_while` on the channel's signal: gives up the lock and
/// sleeps for as long as [`Inner::is_idle`] holds of the guarded state, however
/// often it is woken, and returns with the lock held once it does not. It does
/// not return while the state stays idle. Returns an error as `Mutex::lock`
/// does. The guard has to come from [`lock`] on the same `shared`.
#[verifier::external_body]
pub(crate) fn wait_while_idle<'a, T>(shared: &'a Shared<T>, guard: MutexGuard<'a, Inner<T>>) -> (woken:
    Locked<'a, T>)
{
    shared.available.wait_while(guard, |inner: &mut Inner<T>| inner.is_idle())
}

/// `Condvar::notify_one` on the channel's signal: wakes up one thread that
/// waits on it, if there is one.
#[verifier::external_body]
pub(crate) fn notify_one<T>(shared: &Shared<T>)
    opens_invariants none
    no_unwind
{
    shared.available.notify_one()
}

/// `Arc::clone`: another pointer to the same shared state.
#[verifier::external_body]
pub(crate) fn share<T>(shared: &Arc<Shared<T>>) -> (same: Arc<Shared<T>>)
    ensures
        same == *shared,
{
    Arc::clone(shared)
}

} // verus!
