//! What a reactor reports back from its non-blocking primitives.

use vstd::prelude::*;
use crate::poll::Poll;

verus! {

/// The outcome of one non-blocking attempt to take the next inbound
/// connection from a listening socket.
#[derive(Debug, PartialEq, Eq)]
pub enum AcceptOutcome<S, E> {
    /// Nothing is queued; interest was registered with the reactor.
    WouldBlock,
    /// A connection was taken from the queue.
    Accepted(S),
    /// Accepting one connection failed; the socket still listens.
    Failed(E),
    /// The listening socket is closed for good.
    Closed,
}

/// The outcome of one non-blocking read, write or flush on a connected
/// socket.
#[derive(Debug, PartialEq, Eq)]
pub enum IoOutcome<T, E> {
    /// The operation cannot progress; interest was registered with the
    /// reactor.
    WouldBlock,
    /// The operation completed with this value.
    Done(T),
    /// The transport failed.
    Failed(E),
}

/// Which half of a duplex connection a shutdown closes.
#[derive(Clone, Copy, Debug, PartialEq, Eq, Structural)]
pub enum Direction {
    Read,
    Write,
    Both,
}

impl<T, E> IoOutcome<T, E> {
    /// What the caller of a suspending operation is told for this outcome:
    /// a reactor that would block parks the caller, anything else
    /// completes the step with the value or the error as it is.
    pub open spec fn completion(self) -> Poll<Result<T, E>> {
        match self {
            IoOutcome::WouldBlock => Poll::Pending,
            IoOutcome::Done(value) => Poll::Ready(Ok(value)),
            IoOutcome::Failed(error) => Poll::Ready(Err(error)),
        }
    }

    /// Turns the outcome into the step result that `completion` names.
    pub fn into_poll(self) -> (r: Poll<Result<T, E>>)
        ensures
            r == self.completion(),
    {
        match self {
            IoOutcome::WouldBlock => Poll::Pending,
            IoOutcome::Done(value) => Poll::Ready(Ok(value)),
            IoOutcome::Failed(error) => Poll::Ready(Err(error)),
        }
    }
}

} // verus!
