//! The tasks that a client session runs beside its calls.

use vstd::prelude::*;

verus! {

/// What a background task of a client session does.
#[derive(Clone, Copy, Debug, PartialEq, Eq, Structural)]
pub enum Task {
    /// It drives the input and output of the connection; one per session.
    Connection,
    /// It flushes the body of one request.
    Flush,
}

/// A background task of a client session. Its outcome concerns nobody but
/// the exchange it serves: it is logged and not handed on.
#[derive(Clone, Copy, Debug, PartialEq, Eq, Structural)]
pub struct Background {
    pub task: Task,
}

impl Background {
    /// The task that drives the connection.
    pub fn connection() -> (b: Background)
        ensures
            b.task is Connection,
    {
        Background { task: Task::Connection }
    }

    /// The task that flushes one request body.
    pub fn flush() -> (b: Background)
        ensures
            b.task is Flush,
    {
        Background { task: Task::Flush }
    }

    /// What the task resolves to, given how its work ended: it resolves when
    /// the work does, a failure becomes the plain failure of the task, and
    /// work that is not ready leaves the task not ready.
    pub fn outcome<E>(&self, polled: Result<crate::poll::Async<()>, E>) -> (r: Result<
        crate::poll::Async<()>,
        (),
    >)
        ensures
            r == match polled {
                Ok(ready) => Ok::<crate::poll::Async<()>, ()>(ready),
                Err(_) => Err(()),
            },
    {
        match polled {
            Ok(ready) => Ok(ready),
            Err(_) => Err(()),
        }
    }
}

} // verus!
