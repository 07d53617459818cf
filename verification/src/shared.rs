//! The shared future: a cloneable handle on one computation.
//!
//! All clones of a handle refer to one core, which owns the computation, a
//! flag that says whether the outcome is there, and the state. A poll goes
//! through up to three steps.
//!
//! 1. If the flag is set, the outcome is read from the state and returned.
//! 2. Otherwise the caller tries to take the drive slot. Whoever holds it
//!    polls the computation once. If the computation has finished, its
//!    outcome is stored, the flag is set, every registered task is signalled
//!    and the slot is left empty.
//! 3. Whoever did not get the slot, or found the computation unfinished,
//!    registers the caller's task in the state, unless the state has become
//!    done in the meantime.
//!
//! The flag is a hint. It is loaded and stored with relaxed ordering and
//! orders nothing by itself: a set flag sends the caller to the state, the
//! state is read under its lock, and nothing is ever returned on the flag
//! alone. A caller that finds the flag set and the state still waiting, or
//! the drive slot free and empty while the flag is clear, goes on as if it
//! had not looked: it ends up registering or reading the outcome. The module
//! `protocol` proves of its model of the runs that neither arises there; the
//! verifier does not see into the locks, so the same is not proved of this
//! code.
//!
//! The state's lock is held only around the state's own operations, and
//! nothing that a caller supplied is run or let go under it: a task is
//! cloned before the lock is taken, and a task or an outcome that turns out
//! not to be needed is let go after the lock has been released. The tasks
//! are signalled after the release too, so a task may poll the moment it is
//! signalled.

use crate::cell::SharedError;
use crate::cell::SharedItem;
use crate::future::Async;
use crate::future::Future;
use crate::future::Poll;
use crate::lock::acquire_read;
use crate::lock::acquire_write;
use crate::lock::Lock;
use crate::state::outcome_view;
use crate::state::poll_view;
use crate::state::Outcome;
use crate::state::State;
use crate::state::StateView;
use crate::sync::arc_clone;
use crate::sync::rwlock_new;
use crate::sync::rwlock_read_guard_ref;
use crate::sync::rwlock_write_guard_mut;
use crate::task::Task;
use std::sync::atomic::AtomicBool;
use std::sync::atomic::Ordering;
use std::sync::Arc;
use std::sync::RwLock;
use vstd::pervasive::unreached;
use vstd::prelude::*;

verus! {

/// A future that is cloneable and can be polled from several threads.
///
/// The computation it wraps is driven to completion once; every clone
/// observes the one outcome.
#[must_use]
#[verifier::reject_recursive_types(F)]
pub struct Shared<F: Future> {
    inner: Arc<Inner<F>>,
}

/// What all clones of one handle share.
#[verifier::reject_recursive_types(F)]
struct Inner<F: Future> {
    /// The drive slot: the computation until it has finished, then nothing.
    /// Whoever holds the lock is the one driver.
    drive_slot: Lock<Option<F>>,
    /// Set once the state is done. Never cleared.
    ready_flag: AtomicBool,
    /// What the flag was made with.
    started_ready: Ghost<bool>,
    /// Waiting with the tasks to signal, or done with the outcome.
    state: RwLock<State<F::Item, F::Error>>,
    /// What the state's lock was made around.
    started_state: Ghost<StateView<F::Item, F::Error>>,
}

/// The outcome that one answer of a computation amounts to: none while it
/// is not ready, else its value or its error.
pub open spec fn completion<T, E>(polled: Poll<T, E>) -> Option<Result<T, E>> {
    match polled {
        Ok(Async::Ready(item)) => Some(Ok(item)),
        Ok(Async::NotReady) => None,
        Err(error) => Some(Err(error)),
    }
}

/// Puts what a computation answered into a cell, if it has finished.
pub fn conclude<T, E>(polled: Poll<T, E>) -> (outcome: Option<Outcome<T, E>>)
    ensures
        match outcome {
            Some(stored) => Some(outcome_view(stored)) == completion(polled),
            None => completion(polled) is None,
        },
{
    match polled {
        Ok(Async::Ready(item)) => Some(Ok(SharedItem::new(item))),
        Ok(Async::NotReady) => None,
        Err(error) => Some(Err(SharedError::new(error))),
    }
}

/// Polls the computation in the drive slot once, on behalf of `task`. If it
/// has finished, the slot is emptied and the outcome comes back in its cell.
/// If not, the computation stays in the slot with the progress it has made.
///
/// What the computation answers is its own affair. The contract says that
/// it is the slot's computation that is polled, with the caller's task, that
/// the outcome is the completion of what it answered, and that a computation
/// that has not finished is put back as the poll left it.
pub fn drive<F: Future>(slot: &mut Option<F>, task: &Task) -> (outcome: Option<
    Outcome<F::Item, F::Error>,
>)
    requires
        *old(slot) is Some,
    ensures
        outcome is Some <==> *final(slot) is None,
        exists|polled: Poll<F::Item, F::Error>, computation: &mut F|
            #![trigger call_ensures(F::poll, (computation, task), polled)]
            *computation == old(slot)->0 && call_ensures(F::poll, (computation, task), polled)
                && (match outcome {
                Some(stored) => Some(outcome_view(stored)) == completion(polled),
                None => completion(polled) is None && *final(slot) == Some(*final(computation)),
            }),
{
    let polled = match slot {
        Some(future) => future.poll(task),
        None => unreached(),
    };
    let outcome = conclude(polled);
    if outcome.is_some() {
        *slot = None;
    }
    outcome
}

/// Whether `answer` is what a caller is told who reads the state and finds
/// it to be `seen`: the outcome if there is one, nothing while waiting.
pub open spec fn read_in<T, E>(
    seen: StateView<T, E>,
    answer: Option<Poll<SharedItem<T>, SharedError<E>>>,
) -> bool {
    match answer {
        Some(poll) => seen.cached() == Some(poll_view(poll)),
        None => seen.cached() is None,
    }
}

impl<F: Future> Shared<F> {
    /// The computation that the core of this handle was made around, as it
    /// was handed to `new`.
    pub closed spec fn computation(&self) -> F {
        self.inner.drive_slot.initial()->0
    }

    /// Whether the flag of this handle's core was set when the core was
    /// made.
    pub closed spec fn started_ready(&self) -> bool {
        self.inner.started_ready@
    }

    /// The state that the core of this handle was made with.
    pub closed spec fn started_state(&self) -> StateView<F::Item, F::Error> {
        self.inner.started_state@
    }

    /// Wraps `future`. Nothing is polled yet: the core starts with the
    /// computation in its slot, the flag clear, and the state waiting with
    /// nobody registered.
    pub fn new(future: F) -> (handle: Self)
        ensures
            handle.computation() == future,
            !handle.started_ready(),
            handle.started_state() == StateView::<F::Item, F::Error>::Waiting(Seq::empty()),
    {
        let ready: bool = false;
        let state = State::new();
        let ghost started_state = state@;
        Shared {
            inner: Arc::new(
                Inner {
                    drive_slot: Lock::new(Some(future)),
                    ready_flag: AtomicBool::new(ready),
                    started_ready: Ghost(ready),
                    state: rwlock_new(state),
                    started_state: Ghost(started_state),
                },
            ),
        }
    }

    /// The stored outcome as "ready", read under the state's lock; nothing if
    /// the state is still waiting.
    fn read_result(&self) -> (answer: Option<Poll<SharedItem<F::Item>, SharedError<F::Error>>>)
        ensures
            exists|seen: StateView<F::Item, F::Error>| read_in(seen, answer),
    {
        let guard = acquire_read(&self.inner.state);
        let state = rwlock_read_guard_ref(&guard);
        let answer = state.cached();
        assert(read_in(state@, answer));
        answer
    }

    /// Stores `result` in the state, sets the flag and signals every task
    /// that had registered. The answer is the outcome that the state holds
    /// from now on. The state's lock is released before anything else is
    /// done, and `result` is let go last.
    fn store_result(&self, result: Outcome<F::Item, F::Error>) -> (answer: Poll<
        SharedItem<F::Item>,
        SharedError<F::Error>,
    >)
        ensures
            exists|seen: StateView<F::Item, F::Error>|
                poll_view(answer) == (#[trigger] seen.transition(outcome_view(result))).answer(),
    {
        let (waiters, answer) = {
            let mut guard = acquire_write(&self.inner.state);
            let state = rwlock_write_guard_mut(&mut guard);
            let ghost seen = state@;
            let settled = state.settle(&result);
            assert(poll_view(settled.1) == seen.transition(outcome_view(result)).answer());
            settled
        };
        self.inner.ready_flag.store(true, Ordering::Relaxed);
        let mut next: usize = 0;
        while next < waiters.len()
            invariant
                next <= waiters.len(),
            decreases waiters.len() - next,
        {
            waiters[next].unpark();
            next += 1;
        }
        answer
    }

    /// Registers `task` in the state, unless the outcome is there by now.
    /// The task is cloned before the state's lock is taken, and a clone that
    /// was not registered is let go after the lock has been released.
    fn register(&self, task: &Task) -> Poll<SharedItem<F::Item>, SharedError<F::Error>> {
        let waiter = task.clone();
        let (answer, _unused) = {
            let mut guard = acquire_write(&self.inner.state);
            let state = rwlock_write_guard_mut(&mut guard);
            let parked = state.park(waiter);
            parked
        };
        answer
    }
}

impl<F: Future> Future for Shared<F> {
    type Item = SharedItem<F::Item>;

    type Error = SharedError<F::Error>;

    /// Answers with the outcome if it is there, drives the computation if
    /// nobody else does, and otherwise leaves `task` to be signalled.
    fn poll(&mut self, task: &Task) -> (answer: Poll<Self::Item, Self::Error>)
        ensures
            *final(self) == *old(self),
    {
        if self.inner.ready_flag.load(Ordering::Relaxed) {
            match self.read_result() {
                Some(answer) => return answer,
                None => {},
            }
        }
        match self.inner.drive_slot.try_lock() {
            Some(mut guard) => {
                if self.inner.ready_flag.load(Ordering::Relaxed) {
                    match self.read_result() {
                        Some(answer) => return answer,
                        None => {},
                    }
                }
                let slot = guard.get_mut();
                if slot.is_some() {
                    match drive(slot, task) {
                        Some(outcome) => return self.store_result(outcome),
                        None => {},
                    }
                }
            },
            None => {},
        }
        self.register(task)
    }
}

impl<F: Future> Clone for Shared<F> {
    /// Another handle on the same core.
    fn clone(&self) -> (handle: Self)
        ensures
            handle == *self,
    {
        Shared { inner: arc_clone(&self.inner) }
    }
}

} // verus!
