//! A listening socket held in memory.

use vstd::prelude::*;
use crate::acceptor::Acceptor;
use crate::memory::fault::Fault;
use crate::memory::socket::{MemSocket, SocketState};
use crate::poll::Poll;
use crate::reactor::AcceptOutcome;
use crate::stream::DuplexStream;

verus! {

/// The state of a listening socket, as its owner sees it.
pub struct ListenerState {
    /// What the socket has ready, oldest first: a connection to accept, or
    /// the failure that accepting it will report.
    pub pending: Seq<Result<SocketState, Fault>>,
    /// The socket was closed for good.
    pub closed: bool,
    /// An acceptor registered interest and has not been woken since.
    pub acceptor_parked: bool,
}

impl ListenerState {
    /// A listening socket on which nothing has happened yet.
    pub open spec fn idle() -> ListenerState {
        ListenerState { pending: Seq::empty(), closed: false, acceptor_parked: false }
    }

    /// Nobody is parked on something that is ready: a parked acceptor has
    /// nothing to take from an open socket.
    pub open spec fn settled(self) -> bool {
        self.acceptor_parked ==> self.pending.len() == 0 && !self.closed
    }

    /// What a non-blocking accept reports: the oldest entry of the queue
    /// if there is one, else whether the socket is closed or merely has
    /// nothing ready.
    pub open spec fn accept_outcome(self) -> AcceptOutcome<SocketState, Fault> {
        if self.pending.len() > 0 {
            match self.pending[0] {
                Ok(socket) => AcceptOutcome::Accepted(socket),
                Err(fault) => AcceptOutcome::Failed(fault),
            }
        } else if self.closed {
            AcceptOutcome::Closed
        } else {
            AcceptOutcome::WouldBlock
        }
    }

    /// The socket after that accept: the oldest entry has left the queue,
    /// and the acceptor is parked exactly if it would block.
    pub open spec fn after_accept(self) -> ListenerState {
        ListenerState {
            pending: if self.pending.len() > 0 {
                self.pending.skip(1)
            } else {
                self.pending
            },
            acceptor_parked: self.accept_outcome() is WouldBlock,
            ..self
        }
    }

    /// What one poll of an acceptor on this socket yields, each stream
    /// named by the state of the socket it wraps.
    pub open spec fn next(self) -> Poll<Option<Result<SocketState, Fault>>> {
        match self.accept_outcome() {
            AcceptOutcome::WouldBlock => Poll::Pending,
            AcceptOutcome::Accepted(socket) => Poll::Ready(Some(Ok(socket))),
            AcceptOutcome::Failed(fault) => Poll::Ready(Some(Err(fault))),
            AcceptOutcome::Closed => Poll::Ready(None),
        }
    }

    /// The socket after `n` polls in a row, with nothing arriving in
    /// between.
    pub open spec fn after_polls(self, n: nat) -> ListenerState
        decreases n,
    {
        if n == 0 {
            self
        } else {
            self.after_accept().after_polls((n - 1) as nat)
        }
    }

    /// The socket after something became ready on it.  A closed socket
    /// takes nothing in.
    pub open spec fn after_arrival(self, arrival: Result<SocketState, Fault>) -> ListenerState {
        if self.closed {
            self
        } else {
            ListenerState {
                pending: self.pending.push(arrival),
                acceptor_parked: false,
                ..self
            }
        }
    }

    /// Whether an arrival wakes a parked acceptor.
    pub open spec fn arrival_wakes(self) -> bool {
        !self.closed && self.acceptor_parked
    }

    /// The socket after it was closed from outside.  What was ready before
    /// can still be taken.
    pub open spec fn after_close(self) -> ListenerState {
        ListenerState { closed: true, acceptor_parked: false, ..self }
    }
}

/// The state that stands for a queued entry.
pub open spec fn arrival_view(arrival: Result<MemSocket, Fault>) -> Result<SocketState, Fault> {
    match arrival {
        Ok(socket) => Ok(socket@),
        Err(fault) => Err(fault),
    }
}

/// The outcome of an accept, each socket named by its state.
pub open spec fn outcome_view(outcome: AcceptOutcome<MemSocket, Fault>) -> AcceptOutcome<
    SocketState,
    Fault,
> {
    match outcome {
        AcceptOutcome::WouldBlock => AcceptOutcome::WouldBlock,
        AcceptOutcome::Accepted(socket) => AcceptOutcome::Accepted(socket@),
        AcceptOutcome::Failed(fault) => AcceptOutcome::Failed(fault),
        AcceptOutcome::Closed => AcceptOutcome::Closed,
    }
}

/// The step of an acceptor, each stream named by the state of its socket.
pub open spec fn step_view(step: Poll<Option<Result<DuplexStream<MemSocket>, Fault>>>) -> Poll<
    Option<Result<SocketState, Fault>>,
> {
    match step {
        Poll::Pending => Poll::Pending,
        Poll::Ready(None) => Poll::Ready(None),
        Poll::Ready(Some(Err(fault))) => Poll::Ready(Some(Err(fault))),
        Poll::Ready(Some(Ok(stream))) => Poll::Ready(Some(Ok(stream.socket()@))),
    }
}

/// A listening socket, with the clients and the outside world played by
/// the caller.
#[derive(Debug)]
pub struct MemListener {
    pending: Vec<Result<MemSocket, Fault>>,
    closed: bool,
    acceptor_parked: bool,
}

impl View for MemListener {
    type V = ListenerState;

    closed spec fn view(&self) -> ListenerState {
        ListenerState {
            pending: self.pending@.map_values(|a: Result<MemSocket, Fault>| arrival_view(a)),
            closed: self.closed,
            acceptor_parked: self.acceptor_parked,
        }
    }
}

impl MemListener {
    /// A bound, listening socket with nothing ready.
    pub fn new() -> (r: MemListener)
        ensures
            r@ == ListenerState::idle(),
    {
        let r = MemListener { pending: Vec::new(), closed: false, acceptor_parked: false };
        proof {
            assert(r@.pending =~= Seq::empty());
        }
        r
    }

    /// Whether an acceptor is parked on the socket.
    pub fn acceptor_parked(&self) -> (r: bool)
        ensures
            r == self@.acceptor_parked,
    {
        self.acceptor_parked
    }

    /// Puts one entry at the back of the queue.
    fn arrive(&mut self, arrival: Result<MemSocket, Fault>) -> (woke: bool)
        ensures
            woke == old(self)@.arrival_wakes(),
            final(self)@ == old(self)@.after_arrival(arrival_view(arrival)),
    {
        if self.closed {
            return false;
        }
        let woke: bool = self.acceptor_parked;
        self.pending.push(arrival);
        self.acceptor_parked = false;
        proof {
            assert(self@.pending =~= old(self)@.pending.push(arrival_view(arrival)));
        }
        woke
    }

    /// A client connects: `socket` is the server's end of the new
    /// connection.  Returns whether a parked acceptor was woken.
    pub fn connect(&mut self, socket: MemSocket) -> (woke: bool)
        ensures
            woke == old(self)@.arrival_wakes(),
            final(self)@ == old(self)@.after_arrival(Ok(socket@)),
    {
        self.arrive(Ok(socket))
    }

    /// A connection breaks before it is accepted: accepting it will report
    /// `fault`.  Returns whether a parked acceptor was woken.
    pub fn fail(&mut self, fault: Fault) -> (woke: bool)
        ensures
            woke == old(self)@.arrival_wakes(),
            final(self)@ == old(self)@.after_arrival(Err(fault)),
    {
        self.arrive(Err(fault))
    }

    /// The socket is closed from outside.  Returns whether a parked
    /// acceptor was woken.
    pub fn close(&mut self) -> (woke: bool)
        ensures
            woke == old(self)@.acceptor_parked,
            final(self)@ == old(self)@.after_close(),
    {
        let woke: bool = self.acceptor_parked;
        self.closed = true;
        self.acceptor_parked = false;
        woke
    }

    /// The non-blocking accept primitive.
    pub fn try_accept(&mut self) -> (r: AcceptOutcome<MemSocket, Fault>)
        ensures
            outcome_view(r) == old(self)@.accept_outcome(),
            final(self)@ == old(self)@.after_accept(),
    {
        if self.pending.len() > 0 {
            let arrival = self.pending.remove(0);
            self.acceptor_parked = false;
            proof {
                assert(self@.pending =~= old(self)@.pending.skip(1));
            }
            match arrival {
                Ok(socket) => AcceptOutcome::Accepted(socket),
                Err(fault) => AcceptOutcome::Failed(fault),
            }
        } else if self.closed {
            self.acceptor_parked = false;
            AcceptOutcome::Closed
        } else {
            self.acceptor_parked = true;
            AcceptOutcome::WouldBlock
        }
    }
}

impl Acceptor<MemListener> {
    /// Polls for the next connection: runs the accept primitive and yields
    /// what it reported, a connection wrapped as a duplex stream.
    pub fn accept(&mut self) -> (r: Poll<Option<Result<DuplexStream<MemSocket>, Fault>>>)
        ensures
            step_view(r) == old(self).listener()@.next(),
            final(self).listener()@ == old(self).listener()@.after_accept(),
    {
        let outcome = self.get_mut().try_accept();
        self.poll_accept(outcome)
    }
}

} // verus!
