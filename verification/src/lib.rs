//! A shared future: one poll-driven computation behind any number of
//! cloneable handles.
//!
//! Every handle may be polled from any thread. Whoever wins the drive slot
//! polls the computation; everybody else leaves a wake-up handle behind and
//! is signalled once the outcome has been stored. The outcome is kept in a
//! reference-counted cell, so the value or the error need not be cloneable.
//!
//! - `cell`: the reference-counted cells that hold the value or the error.
//! - `task`: the handle by which a waiting caller is signalled.
//! - `future`: the poll contract of a computation.
//! - `state`: waiting with the tasks to signal, or done with the outcome.
//! - `lock`: the lock of the drive slot, and how the state's lock is taken.
//! - `shared`: the handle and its poll.
//! - `protocol`: the runs of several handles on one core, and what is
//!   proved of all of them.
//! - `sync`: what is assumed of the standard library.

pub mod cell;
pub mod future;
pub mod lock;
pub mod protocol;
pub mod shared;
pub mod state;
mod sync;
pub mod task;
