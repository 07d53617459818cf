//! The handle by which a suspended caller is made runnable again.

use crate::sync::waker_clone;
use crate::sync::waker_wake_by_ref;
use std::task::Waker;
use vstd::prelude::*;

verus! {

/// A captured caller: whoever holds a `Task` can signal that caller to poll
/// again. Its view is the waker it was made from.
pub struct Task {
    waker: Waker,
}

impl View for Task {
    type V = Waker;

    closed spec fn view(&self) -> Waker {
        self.waker
    }
}

impl Task {
    /// Captures the caller that `waker` stands for.
    pub fn new(waker: Waker) -> (task: Task)
        ensures
            task@ == waker,
    {
        Task { waker }
    }

    /// The waker that signals go through.
    pub fn waker(&self) -> (waker: &Waker)
        ensures
            *waker == self@,
    {
        &self.waker
    }

    /// Signals the captured caller. It may be called any number of times and
    /// from any thread.
    pub fn unpark(&self) {
        waker_wake_by_ref(&self.waker)
    }
}

impl Clone for Task {
    /// Another handle on the same caller.
    fn clone(&self) -> Task {
        Task { waker: waker_clone(&self.waker) }
    }
}

} // verus!
