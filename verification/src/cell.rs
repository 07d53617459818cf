//! Reference-counted result cells.
//!
//! The value or the error of a computation is not assumed to be cloneable,
//! yet every observer gets it. A cell owns one allocation; cloning the cell
//! hands out the same allocation again.

use crate::sync::arc_clone;
use std::ops::Deref;
use std::sync::Arc;
use vstd::prelude::*;

verus! {

/// The value of a completed computation. Its view is the value.
#[derive(Debug)]
pub struct SharedItem<T> {
    item: Arc<T>,
}

/// The error of a failed computation. Its view is the error.
#[derive(Debug)]
pub struct SharedError<E> {
    error: Arc<E>,
}

impl<T> View for SharedItem<T> {
    type V = T;

    closed spec fn view(&self) -> T {
        *self.item
    }
}

impl<E> View for SharedError<E> {
    type V = E;

    closed spec fn view(&self) -> E {
        *self.error
    }
}

impl<T> SharedItem<T> {
    /// Takes ownership of `item`.
    pub fn new(item: T) -> (cell: Self)
        ensures
            cell@ == item,
    {
        SharedItem { item: Arc::new(item) }
    }
}

impl<E> SharedError<E> {
    /// Takes ownership of `error`.
    pub fn new(error: E) -> (cell: Self)
        ensures
            cell@ == error,
    {
        SharedError { error: Arc::new(error) }
    }
}

impl<T> Clone for SharedItem<T> {
    /// Shares the allocation; the value is not copied.
    fn clone(&self) -> (cell: Self)
        ensures
            cell@ == self@,
    {
        SharedItem { item: arc_clone(&self.item) }
    }
}

impl<E> Clone for SharedError<E> {
    /// Shares the allocation; the error is not copied.
    fn clone(&self) -> (cell: Self)
        ensures
            cell@ == self@,
    {
        SharedError { error: arc_clone(&self.error) }
    }
}

impl<T> Deref for SharedItem<T> {
    type Target = T;

    fn deref(&self) -> (value: &T)
        ensures
            *value == self@,
    {
        &*self.item
    }
}

impl<E> Deref for SharedError<E> {
    type Target = E;

    fn deref(&self) -> (error: &E)
        ensures
            *error == self@,
    {
        &*self.error
    }
}

} // verus!
