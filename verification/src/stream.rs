//! The duplex-stream adapter: one connected socket, seen by the serving
//! library as a byte stream that can be read, written, flushed and
//! half-closed.

use vstd::prelude::*;
use hyper::client::connect::Connected;
use crate::poll::Poll;
use crate::reactor::{Direction, IoOutcome};

verus! {

#[verifier::external_type_specification]
#[verifier::external_body]
pub struct ExConnected(Connected);

/// Whether connection metadata marks the transport as one to an HTTP
/// proxy: what `hyper::client::connect::Connected::is_proxied` returns of
/// it.
pub uninterp spec fn proxied(meta: Connected) -> bool;

/// Whether connection metadata says that HTTP/2 was negotiated on the
/// transport: what `hyper::client::connect::Connected::is_negotiated_h2`
/// returns of it.
pub uninterp spec fn negotiated_h2(meta: Connected) -> bool;

/// Calls `hyper::client::connect::Connected::new`, which builds connection
/// metadata with nothing set.  Claimed of it: the proxy mark is off and no
/// protocol is negotiated, the two constants that the constructor writes.
#[verifier::external_body]
fn empty_metadata() -> (r: Connected)
    ensures
        !proxied(r),
        !negotiated_h2(r),
{
    Connected::new()
}

/// Calls `hyper::client::connect::Connected::is_proxied`, which reads the
/// proxy mark back.  Claimed of it: the result is that mark.
#[verifier::external_body]
fn is_proxied(meta: &Connected) -> (r: bool)
    ensures
        r == proxied(*meta),
{
    meta.is_proxied()
}

/// Calls `hyper::client::connect::Connected::is_negotiated_h2`, which
/// tells whether the negotiated protocol is HTTP/2.  Claimed of it: the
/// result is that answer.
#[verifier::external_body]
fn is_negotiated_h2(meta: &Connected) -> (r: bool)
    ensures
        r == negotiated_h2(*meta),
{
    meta.is_negotiated_h2()
}

/// Whether connection metadata is that of a plain transport: no proxy in
/// between, and HTTP/2 not negotiated.
pub fn is_plain(meta: &Connected) -> (r: bool)
    ensures
        r == (!proxied(*meta) && !negotiated_h2(*meta)),
{
    !is_proxied(meta) && !is_negotiated_h2(meta)
}

/// Owns exactly one connected socket and forwards to it.  The adapter keeps
/// no state of its own.
#[derive(Debug)]
pub struct DuplexStream<S> {
    socket: S,
}

impl<S> DuplexStream<S> {
    /// The socket that the adapter owns.
    pub closed spec fn socket(&self) -> S {
        self.socket
    }

    /// Wraps a connected socket.
    pub fn new(socket: S) -> (r: Self)
        ensures
            r.socket() == socket,
    {
        DuplexStream { socket }
    }

    /// The socket, to run a primitive that needs shared access.
    pub fn get_ref(&self) -> (r: &S)
        ensures
            *r == self.socket(),
    {
        &self.socket
    }

    /// The socket, to run a primitive that needs exclusive access.  The
    /// adapter owns whatever the primitive leaves behind.
    pub fn get_mut(&mut self) -> (r: &mut S)
        ensures
            *r == old(self).socket(),
            final(self).socket() == *final(r),
    {
        &mut self.socket
    }

    /// Gives the socket back and ends the adapter.
    pub fn into_inner(self) -> (r: S)
        ensures
            r == self.socket(),
    {
        self.socket
    }

    /// The metadata of the connection, as the serving library asks for it:
    /// always the empty metadata, since a plain socket has none to add.
    /// It marks no proxy and no negotiated protocol.
    pub fn connected(&self) -> (r: Connected)
        ensures
            !proxied(r),
            !negotiated_h2(r),
    {
        empty_metadata()
    }

    /// Decides what a reader is told, given what the socket's non-blocking
    /// read reported.  A count of bytes completes the read (zero is the
    /// orderly end of the stream), an error completes it with that error,
    /// and a socket that would block parks the reader.  Nothing is retried.
    pub fn poll_read<E>(&mut self, outcome: IoOutcome<usize, E>) -> (r: Poll<Result<usize, E>>)
        ensures
            r == outcome.completion(),
            *final(self) == *old(self),
    {
        outcome.into_poll()
    }

    /// Decides what a writer is told, given what the socket's non-blocking
    /// write reported.  The count may be short of what was offered; the
    /// writer offers the rest again.
    pub fn poll_write<E>(&mut self, outcome: IoOutcome<usize, E>) -> (r: Poll<Result<usize, E>>)
        ensures
            r == outcome.completion(),
            *final(self) == *old(self),
    {
        outcome.into_poll()
    }

    /// Decides what a flush is told, given what the socket's flush
    /// reported.
    pub fn poll_flush<E>(&mut self, outcome: IoOutcome<(), E>) -> (r: Poll<Result<(), E>>)
        ensures
            r == outcome.completion(),
            *final(self) == *old(self),
    {
        outcome.into_poll()
    }

    /// Which half a shutdown of the stream closes: the outbound half only.
    /// The inbound half stays open, so that what the peer has sent or
    /// still sends can be read.
    pub fn shutdown_direction(&self) -> (r: Direction)
        ensures
            r == Direction::Write,
    {
        Direction::Write
    }

    /// Decides what a shutdown is told, given the result of closing the
    /// outbound half.  A shutdown never parks its caller.
    pub fn poll_shutdown<E>(&mut self, result: Result<(), E>) -> (r: Poll<Result<(), E>>)
        ensures
            r == Poll::Ready(result),
            *final(self) == *old(self),
    {
        Poll::Ready(result)
    }
}

} // verus!
