//! The state shared by all handles: waiting, with the tasks to signal, or
//! done, with the outcome.
//!
//! The state changes variant once, from waiting to done, and never back.

use crate::cell::SharedError;
use crate::cell::SharedItem;
use crate::future::Async;
use crate::future::Poll;
use crate::task::Task;
use vstd::pervasive::unreached;
use vstd::prelude::*;

verus! {

/// The outcome of a computation as it is stored and handed out: the value or
/// the error, each in its cell.
pub type Outcome<T, E> = Result<SharedItem<T>, SharedError<E>>;

/// The state shared by all handles.
pub enum State<T, E> {
    /// No outcome yet. The tasks are those to signal once there is one, in
    /// the order in which they registered.
    Waiting(Vec<Task>),
    /// The outcome, stored once and never changed.
    Done(Outcome<T, E>),
}

/// The state as a mathematical value: the registered tasks as a sequence,
/// and the outcome by the value or error in its cell.
pub enum StateView<T, E> {
    Waiting(Seq<Task>),
    Done(Result<T, E>),
}

/// The value or error that an outcome holds.
pub open spec fn outcome_view<T, E>(outcome: Outcome<T, E>) -> Result<T, E> {
    match outcome {
        Ok(item) => Ok(item@),
        Err(error) => Err(error@),
    }
}

/// The value or error that the answer of a poll holds, if any.
pub open spec fn poll_view<T, E>(poll: Poll<SharedItem<T>, SharedError<E>>) -> Poll<T, E> {
    match poll {
        Ok(Async::Ready(item)) => Ok(Async::Ready(item@)),
        Ok(Async::NotReady) => Ok(Async::NotReady),
        Err(error) => Err(error@),
    }
}

/// The answer "ready" for an outcome: a value is ready, an error is the
/// error.
pub open spec fn ready_with<T, E>(outcome: Result<T, E>) -> Poll<T, E> {
    match outcome {
        Ok(item) => Ok(Async::Ready(item)),
        Err(error) => Err(error),
    }
}

impl<T, E> StateView<T, E> {
    /// The tasks waiting for the outcome; none once it is there.
    pub open spec fn waiters(self) -> Seq<Task> {
        match self {
            StateView::Waiting(waiters) => waiters,
            StateView::Done(_) => Seq::empty(),
        }
    }

    /// The outcome, once it is there.
    pub open spec fn outcome(self) -> Option<Result<T, E>> {
        match self {
            StateView::Waiting(_) => None,
            StateView::Done(outcome) => Some(outcome),
        }
    }

    /// What a poll that finds this state may answer at once: the outcome as
    /// "ready", if there is one.
    pub open spec fn cached(self) -> Option<Poll<T, E>> {
        match self {
            StateView::Waiting(_) => None,
            StateView::Done(outcome) => Some(ready_with(outcome)),
        }
    }

    /// What a caller that comes to register is told: the outcome as "ready"
    /// if there is one, else "not ready".
    pub open spec fn answer(self) -> Poll<T, E> {
        match self {
            StateView::Waiting(_) => Ok(Async::NotReady),
            StateView::Done(outcome) => ready_with(outcome),
        }
    }

    /// The state after `waiter` has asked to be signalled: appended while
    /// waiting, unchanged once done.
    pub open spec fn register(self, waiter: Task) -> Self {
        match self {
            StateView::Waiting(waiters) => StateView::Waiting(waiters.push(waiter)),
            StateView::Done(_) => self,
        }
    }

    /// The state after a computation has reported `outcome`: done with it
    /// while waiting, unchanged once done.
    pub open spec fn transition(self, outcome: Result<T, E>) -> Self {
        match self {
            StateView::Waiting(_) => StateView::Done(outcome),
            StateView::Done(_) => self,
        }
    }
}

impl<T, E> View for State<T, E> {
    type V = StateView<T, E>;

    open spec fn view(&self) -> StateView<T, E> {
        match self {
            State::Waiting(waiters) => StateView::Waiting(waiters@),
            State::Done(outcome) => StateView::Done(outcome_view(*outcome)),
        }
    }
}

/// Another handle on the outcome: the cell is shared, not copied.
pub fn share_outcome<T, E>(outcome: &Outcome<T, E>) -> (copy: Outcome<T, E>)
    ensures
        outcome_view(copy) == outcome_view(*outcome),
{
    match outcome {
        Ok(item) => Ok(item.clone()),
        Err(error) => Err(error.clone()),
    }
}

/// The answer "ready" for a stored outcome.
pub fn ready<T, E>(outcome: Outcome<T, E>) -> (poll: Poll<SharedItem<T>, SharedError<E>>)
    ensures
        poll_view(poll) == ready_with(outcome_view(outcome)),
{
    match outcome {
        Ok(item) => Ok(Async::Ready(item)),
        Err(error) => Err(error),
    }
}

impl<T, E> State<T, E> {
    /// The initial state: waiting, with nobody to signal.
    pub fn new() -> (state: Self)
        ensures
            state@ == StateView::<T, E>::Waiting(Seq::empty()),
    {
        State::Waiting(Vec::new())
    }

    /// Whether the outcome has been stored.
    pub fn is_done(&self) -> (done: bool)
        ensures
            done == (self@ is Done),
    {
        match self {
            State::Waiting(_) => false,
            State::Done(_) => true,
        }
    }

    /// The stored outcome. The state stays as it is.
    pub fn read(&self) -> (outcome: Outcome<T, E>)
        requires
            self@ is Done,
        ensures
            Some(outcome_view(outcome)) == self@.outcome(),
    {
        match self {
            State::Done(outcome) => share_outcome(outcome),
            State::Waiting(_) => unreached(),
        }
    }

    /// Appends `waiter` to the tasks to signal.
    pub fn register(&mut self, waiter: Task)
        requires
            old(self)@ is Waiting,
        ensures
            final(self)@ == old(self)@.register(waiter),
    {
        match self {
            State::Waiting(waiters) => {
                waiters.push(waiter);
            },
            State::Done(_) => {},
        }
    }

    /// Stores `outcome` and hands back the tasks that registered, in the
    /// order in which they did, for the caller to signal.
    pub fn transition(&mut self, outcome: Outcome<T, E>) -> (waiters: Vec<Task>)
        requires
            old(self)@ is Waiting,
        ensures
            final(self)@ == old(self)@.transition(outcome_view(outcome)),
            waiters@ == old(self)@.waiters(),
    {
        let mut previous = State::Done(outcome);
        core::mem::swap(self, &mut previous);
        match previous {
            State::Waiting(waiters) => waiters,
            State::Done(_) => unreached(),
        }
    }

    /// What a poll may answer without driving or waiting: the stored outcome
    /// as "ready" if there is one, nothing while waiting.
    pub fn cached(&self) -> (answer: Option<Poll<SharedItem<T>, SharedError<E>>>)
        ensures
            match answer {
                Some(poll) => Some(poll_view(poll)) == self@.cached(),
                None => self@.cached() is None,
            },
    {
        if self.is_done() {
            Some(ready(self.read()))
        } else {
            None
        }
    }

    /// Records what the computation reported. While waiting, the state
    /// becomes done with `outcome`, and the registered tasks come back to be
    /// signalled. Once done the state keeps the outcome it has, and nobody is
    /// left to signal. Either way the answer is the outcome that the state
    /// now holds. The state takes a share in the cell of `outcome`; the
    /// caller keeps its own, so nothing of the caller's is let go here.
    pub fn settle(&mut self, outcome: &Outcome<T, E>) -> (settled: (
        Vec<Task>,
        Poll<SharedItem<T>, SharedError<E>>,
    ))
        ensures
            final(self)@ == old(self)@.transition(outcome_view(*outcome)),
            settled.0@ == old(self)@.waiters(),
            poll_view(settled.1) == final(self)@.answer(),
    {
        let waiters = if self.is_done() {
            Vec::new()
        } else {
            self.transition(share_outcome(outcome))
        };
        (waiters, ready(self.read()))
    }

    /// Asks to be signalled, unless the outcome is there already. While
    /// waiting, `waiter` is appended and the answer is "not ready". Once done
    /// the state stays as it is, the answer is the outcome, and `waiter`
    /// comes back unused, for the caller to let go.
    pub fn park(&mut self, waiter: Task) -> (parked: (
        Poll<SharedItem<T>, SharedError<E>>,
        Option<Task>,
    ))
        ensures
            final(self)@ == old(self)@.register(waiter),
            poll_view(parked.0) == old(self)@.answer(),
            parked.1 == (if old(self)@ is Done {
                Some(waiter)
            } else {
                None
            }),
    {
        if self.is_done() {
            (ready(self.read()), Some(waiter))
        } else {
            self.register(waiter);
            (Ok(Async::NotReady), None)
        }
    }
}

} // verus!
