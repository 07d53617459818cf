//! The poll contract that a computation presents.

use crate::task::Task;
use vstd::prelude::*;

verus! {

/// What one poll of a computation that has not failed reports.
#[derive(Debug, Clone, Copy, PartialEq, Eq)]
pub enum Async<T> {
    /// The computation has finished with this value.
    Ready(T),
    /// The computation has not finished; the task handed to `poll` will be
    /// signalled when polling again is worthwhile.
    NotReady,
}

/// What one poll reports: progress, or the computation's error.
pub type Poll<T, E> = Result<Async<T>, E>;

impl<T> Async<T> {
    /// Whether a value has been produced.
    pub fn is_ready(&self) -> (ready: bool)
        ensures
            ready == (*self is Ready),
    {
        match self {
            Async::Ready(_) => true,
            Async::NotReady => false,
        }
    }

    /// Whether the computation is still under way.
    pub fn is_not_ready(&self) -> (pending: bool)
        ensures
            pending == (*self is NotReady),
    {
        !self.is_ready()
    }
}

/// A computation that is advanced by polling.
///
/// `poll` makes no promise to the verifier here: code that calls it is
/// proved for every answer it may give. An implementation may promise more
/// of its own `poll`; `drive` hands that promise on to its caller.
pub trait Future {
    /// The value the computation produces.
    type Item;

    /// The error it may fail with.
    type Error;

    /// Advances the computation. When it answers `NotReady` it has arranged
    /// for `task` to be signalled once progress can be made. After `Ready`
    /// or an error it must not be polled again.
    fn poll(&mut self, task: &Task) -> Poll<Self::Item, Self::Error>;
}

} // verus!
