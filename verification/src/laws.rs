//! What holds of every run of the adapters over the in-process reactor.

use vstd::prelude::*;
use crate::memory::fault::Fault;
use crate::memory::listener::ListenerState;
use crate::memory::socket::SocketState;
use crate::poll::Poll;
use crate::reactor::Direction;

verus! {

/// The smaller of a buffer's capacity and a number of waiting bytes.
pub open spec fn fitting(cap: usize, waiting: nat) -> usize {
    if cap < waiting {
        cap
    } else {
        waiting as usize
    }
}

/// The queue of a listening socket after `n` polls in a row.
proof fn lemma_queue_after_polls(l: ListenerState, n: nat)
    ensures
        l.after_polls(n).closed == l.closed,
        n <= l.pending.len() ==> l.after_polls(n).pending == l.pending.skip(n as int),
        n >= l.pending.len() ==> l.after_polls(n).pending == Seq::<
            Result<SocketState, Fault>,
        >::empty(),
    decreases n,
{
    if n > 0 {
        lemma_queue_after_polls(l.after_accept(), (n - 1) as nat);
    }
}

/// Polling an acceptor again and again surfaces what the listening socket
/// had ready, one entry per poll and in the order of the queue: poll
/// number `i` yields entry number `i`, a connection as a stream that wraps
/// it and a failure as that failure, after which the sequence goes on.
/// Each entry leaves the queue as it is yielded, so none is surfaced
/// twice.  Once the queue is used up, every further poll of an open
/// socket parks the caller.
pub proof fn lemma_ready_entries_surface_in_order(l: ListenerState, i: nat)
    ensures
        i < l.pending.len() ==> l.after_polls(i).next() == Poll::Ready(Some(l.pending[i as int])),
        i <= l.pending.len() ==> l.after_polls(i).pending == l.pending.skip(i as int),
        i >= l.pending.len() && !l.closed ==> l.after_polls(i).next() is Pending,
{
    lemma_queue_after_polls(l, i);
}

/// Streams that come out of different polls wrap different connections:
/// where two queued connections go by different names, the polls that
/// reach them yield streams on sockets of those two names.
pub proof fn lemma_streams_wrap_distinct_connections(l: ListenerState, i: nat, j: nat)
    requires
        i < l.pending.len(),
        j < l.pending.len(),
        l.pending[i as int] matches Ok(first) && l.pending[j as int] matches Ok(second)
            && first.id != second.id,
    ensures
        l.after_polls(i).next() matches Poll::Ready(Some(Ok(first))) && l.after_polls(j).next()
            matches Poll::Ready(Some(Ok(second))) && first.id != second.id
            && l.pending[i as int] == Ok::<SocketState, Fault>(first)
            && l.pending[j as int] == Ok::<SocketState, Fault>(second),
{
    lemma_ready_entries_surface_in_order(l, i);
    lemma_ready_entries_surface_in_order(l, j);
}

/// Once a listening socket has been closed from outside, the sequence of
/// an acceptor ends: no poll parks the caller, and as soon as the entries
/// that were ready before are used up, every poll yields the end of the
/// sequence.
pub proof fn lemma_closed_listener_ends_the_sequence(l: ListenerState, i: nat)
    ensures
        !(l.after_close().after_polls(i).next() is Pending),
        i >= l.pending.len() ==> l.after_close().after_polls(i).next() == Poll::<
            Option<Result<SocketState, Fault>>,
        >::Ready(None),
{
    lemma_queue_after_polls(l.after_close(), i);
}

/// A read on a connection with nothing buffered, on which the peer is
/// still sending, parks the reader.  When the peer then sends bytes, the
/// reader is woken, and its next read completes with as many of them as
/// fit in the buffer, the oldest first.  When the peer closes its half
/// instead, the reader is woken, and its next read completes with zero.
pub proof fn lemma_read_parks_until_the_peer_acts(s: SocketState, cap: usize, data: Seq<u8>)
    requires
        s.receiving(),
        s.inbound.len() == 0,
        cap > 0,
        data.len() > 0,
    ensures
        s.read_outcome(cap as nat).completion() is Pending,
        s.after_read(cap as nat).reader_parked,
        s.after_read(cap as nat).peer_send_wakes(data),
        s.after_read(cap as nat).after_peer_send(data).read_outcome(cap as nat).completion()
            == Poll::Ready(Ok::<usize, Fault>(fitting(cap, data.len()))),
        s.after_read(cap as nat).after_peer_send(data).incoming(cap as nat) == data.take(
            fitting(cap, data.len()) as int,
        ),
        s.after_read(cap as nat).after_peer_close().read_outcome(cap as nat).completion()
            == Poll::Ready(Ok::<usize, Fault>(0)),
{
}

/// The socket that a writer leaves behind when it writes `payload` to a
/// duplex stream and, whenever the stream reports a count short of what
/// was offered, offers what is left.  The writer goes by the count it is
/// told, and stops when it is parked or told of an error.
pub open spec fn after_writing_all(s: SocketState, payload: Seq<u8>) -> SocketState
    decreases payload.len(),
{
    if payload.len() == 0 {
        s
    } else {
        match s.write_outcome(payload).completion() {
            Poll::Ready(Ok(n)) => if 0 < n <= payload.len() {
                after_writing_all(s.after_write(payload), payload.skip(n as int))
            } else {
                s.after_write(payload)
            },
            _ => s.after_write(payload),
        }
    }
}

/// However few bytes the outbound buffer takes per write, as long as it
/// takes one, a writer that offers the rest again after every short write
/// delivers the payload byte for byte: what is handed over for the peer
/// is what was handed over before, followed by the payload.
pub proof fn lemma_short_writes_reassemble(s: SocketState, payload: Seq<u8>)
    requires
        !s.reset,
        !s.write_shut,
        s.chunk >= 1,
    ensures
        after_writing_all(s, payload).outbound == s.outbound + payload,
    decreases payload.len(),
{
    if payload.len() > 0 {
        let n = s.accepted(payload.len());
        let next = s.after_write(payload);
        lemma_short_writes_reassemble(next, payload.skip(n as int));
        assert(s.outbound + payload.take(n as int) + payload.skip(n as int) =~= s.outbound
            + payload);
    }
}

/// Writing a payload out touches the outbound half only: what is
/// buffered to be read, and whether the inbound half is open, stay as
/// they were.
proof fn lemma_writing_all_keeps_inbound_half(s: SocketState, payload: Seq<u8>)
    ensures
        after_writing_all(s, payload).inbound == s.inbound,
        after_writing_all(s, payload).receiving() == s.receiving(),
        after_writing_all(s, payload).reset == s.reset,
        after_writing_all(s, payload).write_shut == s.write_shut,
        after_writing_all(s, payload).chunk == s.chunk,
    decreases payload.len(),
{
    if payload.len() > 0 {
        match s.write_outcome(payload).completion() {
            Poll::Ready(Ok(n)) => {
                if 0 < n <= payload.len() {
                    lemma_writing_all_keeps_inbound_half(
                        s.after_write(payload),
                        payload.skip(n as int),
                    );
                }
            },
            _ => {},
        }
    }
}

/// Closing the outbound half, which is what a shutdown of a duplex stream
/// does, leaves the inbound half as it was: a read reports and copies
/// what it would have without the shutdown, and what the peer sends
/// afterwards still arrives.  So bytes that were buffered when the stream
/// was shut down are still read.
pub proof fn lemma_half_close_keeps_reading(s: SocketState, cap: usize, later: Seq<u8>)
    requires
        s.drained_when_shut(),
    ensures
        s.after_shutdown(Direction::Write).read_outcome(cap as nat) == s.read_outcome(cap as nat),
        s.after_shutdown(Direction::Write).incoming(cap as nat) == s.incoming(cap as nat),
        s.after_shutdown(Direction::Write).after_read(cap as nat).inbound == s.after_read(
            cap as nat,
        ).inbound,
        s.after_shutdown(Direction::Write).after_peer_send(later).inbound == s.after_peer_send(
            later,
        ).inbound,
        s.inbound.len() > 0 && cap > 0 ==> {
            &&& s.after_shutdown(Direction::Write).read_outcome(cap as nat).completion()
                == Poll::Ready(Ok::<usize, Fault>(fitting(cap, s.inbound.len())))
            &&& s.after_shutdown(Direction::Write).incoming(cap as nat) == s.inbound.take(
                fitting(cap, s.inbound.len()) as int,
            )
        },
{
}

/// A closed inbound half buffers nothing.  A fresh connection has nothing
/// buffered at all, and whatever happens next, on either side, bytes wait
/// to be read only while the owner has the inbound half open and the
/// connection was not reset.
pub proof fn lemma_closed_inbound_half_buffers_nothing(
    s: SocketState,
    id: u64,
    chunk: usize,
    cap: nat,
    data: Seq<u8>,
    how: Direction,
)
    requires
        s.drained_when_shut(),
    ensures
        SocketState::fresh(id, chunk).drained_when_shut(),
        s.after_read(cap).drained_when_shut(),
        s.after_write(data).drained_when_shut(),
        s.after_shutdown(how).drained_when_shut(),
        s.after_peer_send(data).drained_when_shut(),
        s.after_peer_close().drained_when_shut(),
        s.after_peer_reset().drained_when_shut(),
        s.after_drain(chunk).drained_when_shut(),
{
}

/// A socket stands for one connection for as long as it lives: nothing
/// that is done to it, by its owner or by the peer, changes which
/// connection it names.
pub proof fn lemma_socket_stays_on_its_connection(
    s: SocketState,
    chunk: usize,
    cap: nat,
    data: Seq<u8>,
    how: Direction,
)
    ensures
        s.after_read(cap).id == s.id,
        s.after_write(data).id == s.id,
        s.after_shutdown(how).id == s.id,
        s.after_peer_send(data).id == s.id,
        s.after_peer_close().id == s.id,
        s.after_peer_reset().id == s.id,
        s.after_drain(chunk).id == s.id,
{
}

/// No wake-up is lost on a connection.  A fresh connection has nobody
/// parked on it, and whatever happens next, on either side, nobody is left
/// parked on something that has become ready: a reader is parked only
/// while a read would block, and a writer only while a write would.
pub proof fn lemma_connection_wakes_who_can_proceed(
    s: SocketState,
    id: u64,
    chunk: usize,
    cap: nat,
    data: Seq<u8>,
    how: Direction,
)
    requires
        s.settled(),
    ensures
        SocketState::fresh(id, chunk).settled(),
        s.after_read(cap).settled(),
        s.after_write(data).settled(),
        s.after_shutdown(how).settled(),
        s.after_peer_send(data).settled(),
        s.after_peer_close().settled(),
        s.after_peer_reset().settled(),
        s.after_drain(chunk).settled(),
{
}

/// No wake-up is lost on a listening socket: an acceptor is parked only
/// while the socket is open and has nothing ready.
pub proof fn lemma_listener_wakes_who_can_proceed(
    l: ListenerState,
    arrival: Result<SocketState, Fault>,
)
    requires
        l.settled(),
    ensures
        ListenerState::idle().settled(),
        l.after_accept().settled(),
        l.after_arrival(arrival).settled(),
        l.after_close().settled(),
{
}

/// Polling again without having been woken changes nothing: a parked
/// acceptor, reader or writer that repeats its step is parked again and
/// leaves the socket as the first step left it.
pub proof fn lemma_repeated_poll_is_harmless(
    l: ListenerState,
    s: SocketState,
    cap: nat,
    data: Seq<u8>,
)
    ensures
        l.accept_outcome() is WouldBlock ==> l.after_accept().accept_outcome() is WouldBlock
            && l.after_accept().after_accept() == l.after_accept(),
        s.read_outcome(cap) is WouldBlock ==> s.after_read(cap).read_outcome(cap) is WouldBlock
            && s.after_read(cap).after_read(cap) == s.after_read(cap),
        s.write_outcome(data) is WouldBlock ==> s.after_write(data).write_outcome(data)
            is WouldBlock && s.after_write(data).after_write(data) == s.after_write(data),
{
    if s.read_outcome(cap) is WouldBlock {
        assert(s.inbound.skip(0) =~= s.inbound);
    }
}

/// A message makes the round trip between a client and a server on fresh
/// connections, whatever the message and however few bytes either side
/// hands over per write.
///
/// The listening socket has nothing ready until the client connects, then
/// yields the server's end of the connection, once.  The client writes
/// the message out; carried to the server, it is read there byte for
/// byte.  The server writes back what it read; carried to the client, it
/// is read there byte for byte.  When the client then closes its outbound
/// half, the server reads the end of the stream, and when the server
/// closes in turn, so does the client.
pub proof fn lemma_echo_round_trip(
    client: SocketState,
    server: SocketState,
    message: Seq<u8>,
    cap: usize,
)
    requires
        client == SocketState::fresh(client.id, client.chunk),
        server == SocketState::fresh(server.id, server.chunk),
        client.chunk >= 1,
        server.chunk >= 1,
        0 < message.len() <= cap,
    ensures
        ({
            let idle = ListenerState::idle();
            let listening = idle.after_accept().after_arrival(Ok(server));
            let sent = after_writing_all(client, message);
            let arrived = server.after_peer_send(sent.outbound);
            let echoed = after_writing_all(arrived.after_read(cap as nat), arrived.incoming(cap as nat));
            let returned = sent.after_peer_send(echoed.outbound);
            let client_done = returned.after_read(cap as nat).after_shutdown(Direction::Write);
            let server_ended = echoed.after_peer_close();
            let server_done = server_ended.after_read(cap as nat).after_shutdown(Direction::Write);
            let client_ended = client_done.after_peer_close();
            &&& idle.next() is Pending
            &&& listening.next() == Poll::Ready(Some(Ok::<SocketState, Fault>(server)))
            &&& listening.after_accept().next() is Pending
            &&& sent.outbound == message
            &&& arrived.read_outcome(cap as nat).completion() == Poll::Ready(
                Ok::<usize, Fault>(message.len() as usize),
            )
            &&& arrived.incoming(cap as nat) == message
            &&& echoed.outbound == message
            &&& returned.read_outcome(cap as nat).completion() == Poll::Ready(
                Ok::<usize, Fault>(message.len() as usize),
            )
            &&& returned.incoming(cap as nat) == message
            &&& client_done.shutdown_result() == Ok::<(), Fault>(())
            &&& server_ended.read_outcome(cap as nat).completion() == Poll::Ready(
                Ok::<usize, Fault>(0),
            )
            &&& server_done.shutdown_result() == Ok::<(), Fault>(())
            &&& client_ended.read_outcome(cap as nat).completion() == Poll::Ready(
                Ok::<usize, Fault>(0),
            )
        }),
{
    lemma_short_writes_reassemble(client, message);
    lemma_writing_all_keeps_inbound_half(client, message);
    let arrived = server.after_peer_send(after_writing_all(client, message).outbound);
    let read = arrived.after_read(cap as nat);
    lemma_short_writes_reassemble(read, message);
    lemma_writing_all_keeps_inbound_half(read, message);
}

} // verus!
