//! The locks of the core.
//!
//! `Lock` is the drive slot's lock: it is taken without waiting or not at
//! all. The state sits behind a reader-writer lock, which is waited for.
//!
//! A lock of the standard library is poisoned when a holder panics. Nothing
//! that this library does under a lock leaves the value behind it half
//! written, so a poisoned lock is taken like any other.

use crate::sync::mutex_guard_mut;
use crate::sync::mutex_new;
use crate::sync::mutex_try_lock;
use crate::sync::poison_into_inner;
use crate::sync::rwlock_read;
use crate::sync::rwlock_write;
use std::sync::Mutex;
use std::sync::MutexGuard;
use std::sync::RwLock;
use std::sync::RwLockReadGuard;
use std::sync::RwLockWriteGuard;
use vstd::prelude::*;

verus! {

/// A lock that is never waited for: whoever finds it taken goes on without
/// it.
///
/// What the lock holds changes under a shared reference, so no contract
/// speaks of it. What the lock was made around does not change.
#[verifier::reject_recursive_types(T)]
pub struct Lock<T> {
    mutex: Mutex<T>,
    initial: Ghost<T>,
}

/// Exclusive access to the value behind a `Lock`, for as long as this guard
/// lives.
#[verifier::reject_recursive_types(T)]
pub struct TryLock<'a, T> {
    guard: MutexGuard<'a, T>,
}

impl<T> Lock<T> {
    /// The value that the lock was made around.
    pub closed spec fn initial(&self) -> T {
        self.initial@
    }

    /// A free lock around `value`.
    pub fn new(value: T) -> (lock: Lock<T>)
        ensures
            lock.initial() == value,
    {
        let ghost initial = value;
        Lock { mutex: mutex_new(value), initial: Ghost(initial) }
    }

    /// Takes the lock if it is free, and never waits: `None` means that
    /// somebody holds it.
    pub fn try_lock(&self) -> Option<TryLock<'_, T>> {
        match mutex_try_lock(&self.mutex) {
            Ok(guard) => Some(TryLock { guard }),
            Err(Some(poisoned)) => Some(TryLock { guard: poison_into_inner(poisoned) }),
            Err(None) => None,
        }
    }
}

impl<'a, T> TryLock<'a, T> {
    /// The value behind the lock.
    pub fn get_mut(&mut self) -> &mut T {
        mutex_guard_mut(&mut self.guard)
    }
}

/// Takes `lock` for reading, along with any other readers.
pub(crate) fn acquire_read<'a, T>(lock: &'a RwLock<T>) -> RwLockReadGuard<'a, T> {
    match rwlock_read(lock) {
        Ok(guard) => guard,
        Err(poisoned) => poison_into_inner(poisoned),
    }
}

/// Takes `lock` for writing, alone.
pub(crate) fn acquire_write<'a, T>(lock: &'a RwLock<T>) -> RwLockWriteGuard<'a, T> {
    match rwlock_write(lock) {
        Ok(guard) => guard,
        Err(poisoned) => poison_into_inner(poisoned),
    }
}

} // verus!
