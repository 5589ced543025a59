//! The outcome of polling an operation that may not have finished.

use vstd::prelude::*;

verus! {

/// What a poll found: a value, or nothing yet.
#[derive(Debug, PartialEq, Eq, Structural)]
pub enum Async<T> {
    /// The operation finished with this value.
    Ready(T),
    /// The operation has not finished; the caller is woken when it may have.
    NotReady,
}

impl<T> Async<T> {
    /// Whether the operation finished.
    pub fn is_ready(&self) -> (r: bool)
        ensures
            r == (*self is Ready),
    {
        match self {
            Async::Ready(_) => true,
            Async::NotReady => false,
        }
    }

    /// Whether the operation is still pending.
    pub fn is_not_ready(&self) -> (r: bool)
        ensures
            r == (*self is NotReady),
    {
        match self {
            Async::Ready(_) => false,
            Async::NotReady => true,
        }
    }
}

} // verus!
