//! The connection acceptor: one listening socket, seen by the serving
//! library as a lazy sequence of duplex streams.

use vstd::prelude::*;
use crate::poll::Poll;
use crate::reactor::AcceptOutcome;
use crate::stream::DuplexStream;

verus! {

/// Owns exactly one listening socket.  Between two polls the acceptor is
/// idle and holds nothing but the socket.
#[derive(Debug)]
pub struct Acceptor<L> {
    listener: L,
}

/// What the sequence of connections yields for one outcome of the
/// listening socket's non-blocking accept.
pub open spec fn yields<S, E>(
    outcome: AcceptOutcome<S, E>,
    step: Poll<Option<Result<DuplexStream<S>, E>>>,
) -> bool {
    match outcome {
        AcceptOutcome::WouldBlock => step is Pending,
        AcceptOutcome::Accepted(socket) => {
            &&& step matches Poll::Ready(Some(Ok(stream)))
            &&& stream.socket() == socket
        },
        AcceptOutcome::Failed(error) => step == Poll::<Option<Result<DuplexStream<S>, E>>>::Ready(
            Some(Err(error)),
        ),
        AcceptOutcome::Closed => step == Poll::<Option<Result<DuplexStream<S>, E>>>::Ready(None),
    }
}

impl<L> Acceptor<L> {
    /// The listening socket that the acceptor owns.
    pub closed spec fn listener(&self) -> L {
        self.listener
    }

    /// Wraps a bound, listening socket.
    pub fn new(listener: L) -> (r: Self)
        ensures
            r.listener() == listener,
    {
        Acceptor { listener }
    }

    /// The listening socket, to run a primitive that needs shared access.
    pub fn get_ref(&self) -> (r: &L)
        ensures
            *r == self.listener(),
    {
        &self.listener
    }

    /// The listening socket, to run a primitive that needs exclusive
    /// access.
    pub fn get_mut(&mut self) -> (r: &mut L)
        ensures
            *r == old(self).listener(),
            final(self).listener() == *final(r),
    {
        &mut self.listener
    }

    /// Decides the next step of the sequence, given what the listening
    /// socket's non-blocking accept reported.
    ///
    /// With nothing queued the caller is parked.  A connection is wrapped
    /// as a duplex stream and yielded.  A failure to accept is yielded for
    /// this step only: the sequence goes on, and the caller polls again.
    /// Only a closed socket ends the sequence.
    pub fn poll_accept<S, E>(&mut self, outcome: AcceptOutcome<S, E>) -> (r: Poll<
        Option<Result<DuplexStream<S>, E>>,
    >)
        ensures
            yields(outcome, r),
            *final(self) == *old(self),
    {
        match outcome {
            AcceptOutcome::WouldBlock => Poll::Pending,
            AcceptOutcome::Accepted(socket) => Poll::Ready(Some(Ok(DuplexStream::new(socket)))),
            AcceptOutcome::Failed(error) => Poll::Ready(Some(Err(error))),
            AcceptOutcome::Closed => Poll::Ready(None),
        }
    }
}

} // verus!
