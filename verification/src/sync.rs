//! The standard library's synchronisation primitives as the verifier sees
//! them: the types are opaque, and their operations promise only what is
//! written here. None of these contracts is proved.

use std::sync::Arc;
use std::sync::Mutex;
use std::sync::MutexGuard;
use std::sync::PoisonError;
use std::sync::RwLock;
use std::sync::RwLockReadGuard;
use std::sync::RwLockWriteGuard;
use std::sync::TryLockError;
use std::task::Waker;
use vstd::prelude::*;

verus! {

/// `std::sync::Mutex`, opaque.
#[verifier::external_type_specification]
#[verifier::external_body]
#[verifier::reject_recursive_types(T)]
pub struct ExMutex<T: ?Sized>(Mutex<T>);

/// `std::sync::MutexGuard`, opaque.
#[verifier::external_type_specification]
#[verifier::external_body]
#[verifier::reject_recursive_types(T)]
pub struct ExMutexGuard<'a, T: ?Sized + 'a>(MutexGuard<'a, T>);

/// `std::sync::RwLock`, opaque.
#[verifier::external_type_specification]
#[verifier::external_body]
#[verifier::reject_recursive_types(T)]
pub struct ExRwLock<T: ?Sized>(RwLock<T>);

/// `std::sync::RwLockReadGuard`, opaque.
#[verifier::external_type_specification]
#[verifier::external_body]
#[verifier::reject_recursive_types(T)]
pub struct ExRwLockReadGuard<'a, T: ?Sized>(RwLockReadGuard<'a, T>);

/// `std::sync::RwLockWriteGuard`, opaque.
#[verifier::external_type_specification]
#[verifier::external_body]
#[verifier::reject_recursive_types(T)]
pub struct ExRwLockWriteGuard<'a, T: ?Sized + 'a>(RwLockWriteGuard<'a, T>);

/// `std::sync::PoisonError`, opaque.
#[verifier::external_type_specification]
#[verifier::external_body]
#[verifier::reject_recursive_types(T)]
pub struct ExPoisonError<T>(PoisonError<T>);

/// `std::task::Waker`, opaque.
#[verifier::external_type_specification]
#[verifier::external_body]
pub struct ExWaker(Waker);

/// `Arc::clone`: the new pointer refers to the allocation of the old one, so
/// both point at the same value.
#[verifier::external_body]
pub(crate) fn arc_clone<T>(pointer: &Arc<T>) -> (copy: Arc<T>)
    ensures
        *copy == **pointer,
{
    Arc::clone(pointer)
}

/// `Mutex::new`. Nothing is claimed of the lock.
#[verifier::external_body]
pub(crate) fn mutex_new<T>(value: T) -> Mutex<T> {
    Mutex::new(value)
}

/// `Mutex::try_lock`: a guard if the lock was free. It never waits. The
/// error says why there is none: the poison, with the guard in it, if a
/// holder panicked, and nothing if somebody holds the lock right now.
/// Nothing is claimed of which of the three comes back.
#[verifier::external_body]
pub(crate) fn mutex_try_lock<'a, T>(lock: &'a Mutex<T>) -> Result<
    MutexGuard<'a, T>,
    Option<PoisonError<MutexGuard<'a, T>>>,
> {
    match lock.try_lock() {
        Ok(guard) => Ok(guard),
        Err(TryLockError::Poisoned(poisoned)) => Err(Some(poisoned)),
        Err(TryLockError::WouldBlock) => Err(None),
    }
}

/// `PoisonError::into_inner`: the guard that the error of a poisoned lock
/// carries.
#[verifier::external_body]
pub(crate) fn poison_into_inner<T>(poisoned: PoisonError<T>) -> T {
    poisoned.into_inner()
}

/// `DerefMut::deref_mut` of a `MutexGuard`: the value behind the lock.
/// Nothing is claimed of what it holds.
#[verifier::external_body]
pub(crate) fn mutex_guard_mut<'a, 'b, T>(guard: &'a mut MutexGuard<'b, T>) -> &'a mut T {
    &mut **guard
}

/// `RwLock::new`. Nothing is claimed of the lock.
#[verifier::external_body]
pub(crate) fn rwlock_new<T>(value: T) -> RwLock<T> {
    RwLock::new(value)
}

/// `RwLock::read`: waits until no writer holds the lock, and hands out a
/// guard, inside the poison if a holder panicked. A thread that holds the
/// lock already must not call this: the standard library may then panic or
/// wait for ever.
#[verifier::external_body]
pub(crate) fn rwlock_read<'a, T>(lock: &'a RwLock<T>) -> Result<
    RwLockReadGuard<'a, T>,
    PoisonError<RwLockReadGuard<'a, T>>,
> {
    lock.read()
}

/// `Deref::deref` of a `RwLockReadGuard`: the value behind the lock. Nothing
/// is claimed of what it holds.
#[verifier::external_body]
pub(crate) fn rwlock_read_guard_ref<'a, 'b, T>(guard: &'a RwLockReadGuard<'b, T>) -> &'a T {
    &**guard
}

/// `RwLock::write`: waits until nobody else holds the lock, and hands out a
/// guard, inside the poison if a holder panicked. A thread that holds the
/// lock already must not call this: the standard library may then panic or
/// wait for ever.
#[verifier::external_body]
pub(crate) fn rwlock_write<'a, T>(lock: &'a RwLock<T>) -> Result<
    RwLockWriteGuard<'a, T>,
    PoisonError<RwLockWriteGuard<'a, T>>,
> {
    lock.write()
}

/// `DerefMut::deref_mut` of a `RwLockWriteGuard`: the value behind the lock.
/// Nothing is claimed of what it holds.
#[verifier::external_body]
pub(crate) fn rwlock_write_guard_mut<'a, 'b, T>(
    guard: &'a mut RwLockWriteGuard<'b, T>,
) -> &'a mut T {
    &mut **guard
}

/// `Waker::clone`: another waker for the same task. Nothing is claimed of
/// the copy; what runs is the code of whoever made the waker.
#[verifier::external_body]
pub(crate) fn waker_clone(waker: &Waker) -> Waker {
    waker.clone()
}

/// `Waker::wake_by_ref`: signals the task the waker belongs to. The effect
/// is outside what the verifier sees; what runs is the code of whoever made
/// the waker.
#[verifier::external_body]
pub(crate) fn waker_wake_by_ref(waker: &Waker) {
    waker.wake_by_ref()
}

} // verus!
