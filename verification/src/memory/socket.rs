//! A connected socket held in memory.

use vstd::prelude::*;
use crate::memory::fault::Fault;
use crate::poll::Poll;
use crate::reactor::{Direction, IoOutcome};
use crate::stream::DuplexStream;

verus! {

/// The state of one end of a duplex connection, as its owner sees it.
pub struct SocketState {
    /// Names the connection; never changes.
    pub id: u64,
    /// Bytes that the peer sent and the owner has not read yet.
    pub inbound: Seq<u8>,
    /// The peer has closed its outbound half: no more bytes will arrive.
    pub peer_closed: bool,
    /// Every byte accepted from the owner for delivery to the peer.
    pub outbound: Seq<u8>,
    /// How many bytes one write may hand over; zero while the outbound
    /// buffer is full.
    pub chunk: usize,
    /// The owner closed the inbound half.
    pub read_shut: bool,
    /// The owner closed the outbound half.
    pub write_shut: bool,
    /// The peer reset the connection.
    pub reset: bool,
    /// A reader registered interest and has not been woken since.
    pub reader_parked: bool,
    /// A writer registered interest and has not been woken since.
    pub writer_parked: bool,
}

impl SocketState {
    /// A connection on which nothing has happened yet.
    pub open spec fn fresh(id: u64, chunk: usize) -> SocketState {
        SocketState {
            id,
            inbound: Seq::empty(),
            peer_closed: false,
            outbound: Seq::empty(),
            chunk,
            read_shut: false,
            write_shut: false,
            reset: false,
            reader_parked: false,
            writer_parked: false,
        }
    }

    /// Whether a read into a buffer with room would complete at once.
    pub open spec fn readable(self) -> bool {
        self.reset || self.read_shut || self.peer_closed || self.inbound.len() > 0
    }

    /// Whether a write of at least one byte would complete at once.
    pub open spec fn writable(self) -> bool {
        self.reset || self.write_shut || self.chunk > 0
    }

    /// Nobody is parked on something that is ready: a parked reader has
    /// nothing to read yet, and a parked writer has no room to write.
    pub open spec fn settled(self) -> bool {
        &&& self.reader_parked ==> !self.readable()
        &&& self.writer_parked ==> !self.writable()
    }

    /// Bytes are buffered only on an inbound half that is open: once the
    /// owner has closed that half, or the connection was reset, nothing is
    /// left to read.
    pub open spec fn drained_when_shut(self) -> bool {
        self.reset || self.read_shut ==> self.inbound.len() == 0
    }

    /// The bytes that a read into a buffer of `cap` bytes copies out: as
    /// many of the oldest unread bytes as fit.
    pub open spec fn incoming(self, cap: nat) -> Seq<u8> {
        if self.reset || self.read_shut {
            Seq::empty()
        } else if cap < self.inbound.len() {
            self.inbound.take(cap as int)
        } else {
            self.inbound
        }
    }

    /// What a non-blocking read into a buffer of `cap` bytes reports.  A
    /// count of zero is the orderly end of the stream, or an empty buffer.
    pub open spec fn read_outcome(self, cap: nat) -> IoOutcome<usize, Fault> {
        if self.reset {
            IoOutcome::Failed(Fault::ConnectionReset)
        } else if self.incoming(cap).len() > 0 {
            IoOutcome::Done(self.incoming(cap).len() as usize)
        } else if self.read_shut || self.peer_closed || cap == 0 {
            IoOutcome::Done(0)
        } else {
            IoOutcome::WouldBlock
        }
    }

    /// The socket after that read: the copied bytes are gone from the
    /// inbound buffer, and the reader is parked exactly if it would block.
    pub open spec fn after_read(self, cap: nat) -> SocketState {
        SocketState {
            inbound: self.inbound.skip(self.incoming(cap).len() as int),
            reader_parked: self.read_outcome(cap) is WouldBlock,
            ..self
        }
    }

    /// How many of `len` offered bytes one write hands over.
    pub open spec fn accepted(self, len: nat) -> nat {
        if self.reset || self.write_shut {
            0
        } else if len < self.chunk {
            len
        } else {
            self.chunk as nat
        }
    }

    /// What a non-blocking write of `data` reports.
    pub open spec fn write_outcome(self, data: Seq<u8>) -> IoOutcome<usize, Fault> {
        if self.reset {
            IoOutcome::Failed(Fault::ConnectionReset)
        } else if self.write_shut {
            IoOutcome::Failed(Fault::BrokenPipe)
        } else if data.len() == 0 {
            IoOutcome::Done(0)
        } else if self.chunk == 0 {
            IoOutcome::WouldBlock
        } else {
            IoOutcome::Done(self.accepted(data.len()) as usize)
        }
    }

    /// The socket after that write: the accepted prefix of `data` follows
    /// what was delivered before, and the writer is parked exactly if it
    /// would block.
    pub open spec fn after_write(self, data: Seq<u8>) -> SocketState {
        SocketState {
            outbound: self.outbound + data.take(self.accepted(data.len()) as int),
            writer_parked: self.write_outcome(data) is WouldBlock,
            ..self
        }
    }

    /// What a shutdown reports: it fails only on a connection that was
    /// reset.
    pub open spec fn shutdown_result(self) -> Result<(), Fault> {
        if self.reset {
            Err(Fault::NotConnected)
        } else {
            Ok(())
        }
    }

    /// The socket after a shutdown of the halves that `how` names.  Closing
    /// the inbound half discards what was buffered there; closing the
    /// outbound half leaves the inbound half as it was.  Whoever was parked
    /// on a half that closes is woken.
    pub open spec fn after_shutdown(self, how: Direction) -> SocketState {
        if self.reset {
            self
        } else {
            match how {
                Direction::Write => SocketState { write_shut: true, writer_parked: false, ..self },
                Direction::Read => SocketState {
                    read_shut: true,
                    inbound: Seq::empty(),
                    reader_parked: false,
                    ..self
                },
                Direction::Both => SocketState {
                    read_shut: true,
                    write_shut: true,
                    inbound: Seq::empty(),
                    reader_parked: false,
                    writer_parked: false,
                    ..self
                },
            }
        }
    }

    /// Whether bytes from the peer still reach the inbound buffer.
    pub open spec fn receiving(self) -> bool {
        !self.reset && !self.read_shut && !self.peer_closed
    }

    /// The socket after the peer sent `data`.
    pub open spec fn after_peer_send(self, data: Seq<u8>) -> SocketState {
        if self.receiving() && data.len() > 0 {
            SocketState { inbound: self.inbound + data, reader_parked: false, ..self }
        } else {
            self
        }
    }

    /// Whether the arrival of `data` wakes a parked reader.
    pub open spec fn peer_send_wakes(self, data: Seq<u8>) -> bool {
        self.receiving() && data.len() > 0 && self.reader_parked
    }

    /// The socket after the peer closed its outbound half.
    pub open spec fn after_peer_close(self) -> SocketState {
        SocketState { peer_closed: true, reader_parked: false, ..self }
    }

    /// The socket after the peer reset the connection: unread bytes are
    /// lost and whoever was parked is woken.
    pub open spec fn after_peer_reset(self) -> SocketState {
        SocketState {
            reset: true,
            inbound: Seq::empty(),
            reader_parked: false,
            writer_parked: false,
            ..self
        }
    }

    /// The socket after its outbound buffer made room for `chunk` bytes
    /// per write.
    pub open spec fn after_drain(self, chunk: usize) -> SocketState {
        SocketState { chunk, writer_parked: self.writer_parked && chunk == 0, ..self }
    }
}

/// Appends the first `n` bytes of `src` to `dst`.
fn append(dst: &mut Vec<u8>, src: &[u8], n: usize)
    requires
        n <= src@.len(),
    ensures
        final(dst)@ == old(dst)@ + src@.take(n as int),
{
    let mut i: usize = 0;
    while i < n
        invariant
            i <= n <= src@.len(),
            dst@ == old(dst)@ + src@.take(i as int),
        decreases n - i,
    {
        dst.push(src[i]);
        i += 1;
    }
}

/// Overwrites the front of `buf` with all of `src`.
fn copy_to_front(buf: &mut [u8], src: &Vec<u8>)
    requires
        src@.len() <= old(buf)@.len(),
    ensures
        final(buf)@ == src@ + old(buf)@.skip(src@.len() as int),
{
    let n: usize = src.len();
    let mut i: usize = 0;
    while i < n
        invariant
            i <= n,
            n == src@.len(),
            buf@.len() == old(buf)@.len(),
            n <= buf@.len(),
            buf@ == src@.take(i as int) + old(buf)@.skip(i as int),
        decreases n - i,
    {
        buf[i] = src[i];
        i += 1;
    }
}

/// One end of a duplex connection, with its peer played by the caller.
#[derive(Debug)]
pub struct MemSocket {
    id: u64,
    inbound: Vec<u8>,
    peer_closed: bool,
    outbound: Vec<u8>,
    chunk: usize,
    read_shut: bool,
    write_shut: bool,
    reset: bool,
    reader_parked: bool,
    writer_parked: bool,
}

impl View for MemSocket {
    type V = SocketState;

    closed spec fn view(&self) -> SocketState {
        SocketState {
            id: self.id,
            inbound: self.inbound@,
            peer_closed: self.peer_closed,
            outbound: self.outbound@,
            chunk: self.chunk,
            read_shut: self.read_shut,
            write_shut: self.write_shut,
            reset: self.reset,
            reader_parked: self.reader_parked,
            writer_parked: self.writer_parked,
        }
    }
}

impl MemSocket {
    /// A fresh connection named `id` whose outbound buffer takes up to
    /// `chunk` bytes per write.
    pub fn new(id: u64, chunk: usize) -> (r: MemSocket)
        ensures
            r@ == SocketState::fresh(id, chunk),
    {
        MemSocket {
            id,
            inbound: Vec::new(),
            peer_closed: false,
            outbound: Vec::new(),
            chunk,
            read_shut: false,
            write_shut: false,
            reset: false,
            reader_parked: false,
            writer_parked: false,
        }
    }

    /// The name of the connection.
    pub fn id(&self) -> (r: u64)
        ensures
            r == self@.id,
    {
        self.id
    }

    /// Every byte that the owner has handed over for the peer so far.
    pub fn delivered(&self) -> (r: &[u8])
        ensures
            r@ == self@.outbound,
    {
        self.outbound.as_slice()
    }

    /// Whether a reader is parked on the socket.
    pub fn reader_parked(&self) -> (r: bool)
        ensures
            r == self@.reader_parked,
    {
        self.reader_parked
    }

    /// Whether a writer is parked on the socket.
    pub fn writer_parked(&self) -> (r: bool)
        ensures
            r == self@.writer_parked,
    {
        self.writer_parked
    }

    /// The non-blocking read primitive: copies the oldest unread bytes to
    /// the front of `buf` and leaves the rest of `buf` alone.
    pub fn try_read(&mut self, buf: &mut [u8]) -> (r: IoOutcome<usize, Fault>)
        ensures
            r == old(self)@.read_outcome(old(buf)@.len()),
            final(self)@ == old(self)@.after_read(old(buf)@.len()),
            final(buf)@ == old(self)@.incoming(old(buf)@.len()) + old(buf)@.skip(
                old(self)@.incoming(old(buf)@.len()).len() as int,
            ),
    {
        let cap: usize = buf.len();
        let avail: usize = self.inbound.len();
        let n: usize = if self.reset || self.read_shut {
            0
        } else if cap < avail {
            cap
        } else {
            avail
        };
        proof {
            assert(self.inbound@.skip(0) =~= self.inbound@);
        }
        if self.reset {
            self.reader_parked = false;
            IoOutcome::Failed(Fault::ConnectionReset)
        } else if n > 0 {
            let rest: Vec<u8> = self.inbound.split_off(n);
            copy_to_front(buf, &self.inbound);
            self.inbound = rest;
            self.reader_parked = false;
            IoOutcome::Done(n)
        } else if self.read_shut || self.peer_closed || cap == 0 {
            self.reader_parked = false;
            IoOutcome::Done(0)
        } else {
            self.reader_parked = true;
            IoOutcome::WouldBlock
        }
    }

    /// The non-blocking write primitive: hands over as much of the front
    /// of `data` as one write may take.
    pub fn try_write(&mut self, data: &[u8]) -> (r: IoOutcome<usize, Fault>)
        ensures
            r == old(self)@.write_outcome(data@),
            final(self)@ == old(self)@.after_write(data@),
    {
        let len: usize = data.len();
        if self.reset {
            self.writer_parked = false;
            IoOutcome::Failed(Fault::ConnectionReset)
        } else if self.write_shut {
            self.writer_parked = false;
            IoOutcome::Failed(Fault::BrokenPipe)
        } else if len == 0 {
            self.writer_parked = false;
            IoOutcome::Done(0)
        } else if self.chunk == 0 {
            self.writer_parked = true;
            IoOutcome::WouldBlock
        } else {
            let n: usize = if len < self.chunk {
                len
            } else {
                self.chunk
            };
            append(&mut self.outbound, data, n);
            self.writer_parked = false;
            IoOutcome::Done(n)
        }
    }

    /// The flush primitive.  Nothing is buffered above the socket, so it
    /// always succeeds and changes nothing.
    pub fn try_flush(&mut self) -> (r: IoOutcome<(), Fault>)
        ensures
            r == IoOutcome::<(), Fault>::Done(()),
            final(self)@ == old(self)@,
    {
        IoOutcome::Done(())
    }

    /// Closes the halves of the connection that `how` names.
    pub fn shutdown(&mut self, how: Direction) -> (r: Result<(), Fault>)
        ensures
            r == old(self)@.shutdown_result(),
            final(self)@ == old(self)@.after_shutdown(how),
    {
        if self.reset {
            return Err(Fault::NotConnected);
        }
        match how {
            Direction::Write => {
                self.write_shut = true;
                self.writer_parked = false;
            },
            Direction::Read => {
                self.read_shut = true;
                self.inbound.clear();
                self.reader_parked = false;
            },
            Direction::Both => {
                self.read_shut = true;
                self.write_shut = true;
                self.inbound.clear();
                self.reader_parked = false;
                self.writer_parked = false;
            },
        }
        Ok(())
    }

    /// The peer sends `data`.  Returns whether a parked reader was woken.
    pub fn peer_send(&mut self, data: &[u8]) -> (woke: bool)
        ensures
            woke == old(self)@.peer_send_wakes(data@),
            final(self)@ == old(self)@.after_peer_send(data@),
    {
        if self.reset || self.read_shut || self.peer_closed || data.len() == 0 {
            return false;
        }
        append(&mut self.inbound, data, data.len());
        proof {
            assert(data@.take(data@.len() as int) =~= data@);
        }
        let woke: bool = self.reader_parked;
        self.reader_parked = false;
        woke
    }

    /// The peer closes its outbound half.  Returns whether a parked reader
    /// was woken.
    pub fn peer_close(&mut self) -> (woke: bool)
        ensures
            woke == old(self)@.reader_parked,
            final(self)@ == old(self)@.after_peer_close(),
    {
        let woke: bool = self.reader_parked;
        self.peer_closed = true;
        self.reader_parked = false;
        woke
    }

    /// The peer resets the connection.  Returns whether anyone parked on
    /// the socket was woken.
    pub fn peer_reset(&mut self) -> (woke: bool)
        ensures
            woke == (old(self)@.reader_parked || old(self)@.writer_parked),
            final(self)@ == old(self)@.after_peer_reset(),
    {
        let woke: bool = self.reader_parked || self.writer_parked;
        self.reset = true;
        self.inbound.clear();
        self.reader_parked = false;
        self.writer_parked = false;
        woke
    }

    /// The outbound buffer makes room for `chunk` bytes per write.
    /// Returns whether a parked writer was woken.
    pub fn drain(&mut self, chunk: usize) -> (woke: bool)
        ensures
            woke == (old(self)@.writer_parked && chunk > 0),
            final(self)@ == old(self)@.after_drain(chunk),
    {
        let woke: bool = self.writer_parked && chunk > 0;
        self.chunk = chunk;
        if chunk > 0 {
            self.writer_parked = false;
        }
        woke
    }
}

impl DuplexStream<MemSocket> {
    /// Reads without blocking: copies what has arrived to the front of
    /// `buf` and reports the count.  With nothing to copy, the reader is
    /// told zero once the peer has closed its half, and is parked before
    /// that.  A transport error is reported as it is.
    pub fn read(&mut self, buf: &mut [u8]) -> (r: Poll<Result<usize, Fault>>)
        ensures
            r == old(self).socket()@.read_outcome(old(buf)@.len()).completion(),
            final(self).socket()@ == old(self).socket()@.after_read(old(buf)@.len()),
            final(buf)@ == old(self).socket()@.incoming(old(buf)@.len()) + old(buf)@.skip(
                old(self).socket()@.incoming(old(buf)@.len()).len() as int,
            ),
    {
        let outcome = self.get_mut().try_read(buf);
        self.poll_read(outcome)
    }

    /// Writes without blocking: hands over as much of the front of `data`
    /// as the outbound buffer takes and reports the count, which may be
    /// short.  With a full buffer the writer is parked.
    pub fn write(&mut self, data: &[u8]) -> (r: Poll<Result<usize, Fault>>)
        ensures
            r == old(self).socket()@.write_outcome(data@).completion(),
            final(self).socket()@ == old(self).socket()@.after_write(data@),
    {
        let outcome = self.get_mut().try_write(data);
        self.poll_write(outcome)
    }

    /// Flushes: succeeds at once and leaves the connection as it was.
    pub fn flush(&mut self) -> (r: Poll<Result<(), Fault>>)
        ensures
            r == Poll::Ready(Ok::<(), Fault>(())),
            final(self).socket()@ == old(self).socket()@,
    {
        let outcome = self.get_mut().try_flush();
        self.poll_flush(outcome)
    }

    /// Closes the outbound half of the connection and nothing else.
    pub fn shutdown(&mut self) -> (r: Poll<Result<(), Fault>>)
        ensures
            r == Poll::Ready(old(self).socket()@.shutdown_result()),
            final(self).socket()@ == old(self).socket()@.after_shutdown(Direction::Write),
    {
        let how = self.shutdown_direction();
        let result = self.get_mut().shutdown(how);
        self.poll_shutdown(result)
    }
}

} // verus!
