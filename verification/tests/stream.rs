use hyper::client::connect::Connected;
use runtime_bridge::memory::fault::Fault;
use runtime_bridge::memory::socket::MemSocket;
use runtime_bridge::poll::Poll;
use runtime_bridge::reactor::{Direction, IoOutcome};
use runtime_bridge::stream::{is_plain, DuplexStream};

fn stream(id: u64, chunk: usize) -> DuplexStream<MemSocket> {
    DuplexStream::new(MemSocket::new(id, chunk))
}

#[test]
fn poll_read_completes_with_the_count() {
    let mut s = DuplexStream::new(5u32);
    let r = s.poll_read(IoOutcome::<usize, &str>::Done(3));
    assert_eq!(r, Poll::Ready(Ok(3)));
    assert_eq!(*s.get_ref(), 5);
}

#[test]
fn poll_read_of_zero_is_end_of_stream() {
    let mut s = DuplexStream::new(5u32);
    assert_eq!(s.poll_read(IoOutcome::<usize, &str>::Done(0)), Poll::Ready(Ok(0)));
}

#[test]
fn poll_read_parks_when_the_socket_would_block() {
    let mut s = DuplexStream::new(5u32);
    let r = s.poll_read(IoOutcome::<usize, &str>::WouldBlock);
    assert_eq!(r, Poll::Pending);
    assert!(r.is_pending());
    assert!(!r.is_ready());
}

#[test]
fn poll_read_surfaces_the_transport_error() {
    let mut s = DuplexStream::new(5u32);
    let r = s.poll_read(IoOutcome::<usize, &str>::Failed("reset"));
    assert_eq!(r, Poll::Ready(Err("reset")));
    assert!(r.is_ready());
}

#[test]
fn poll_write_reports_a_short_count_as_it_is() {
    let mut s = DuplexStream::new(5u32);
    assert_eq!(s.poll_write(IoOutcome::<usize, &str>::Done(2)), Poll::Ready(Ok(2)));
    assert_eq!(s.poll_write(IoOutcome::<usize, &str>::WouldBlock), Poll::Pending);
    assert_eq!(
        s.poll_write(IoOutcome::<usize, &str>::Failed("broken pipe")),
        Poll::Ready(Err("broken pipe"))
    );
}

#[test]
fn poll_flush_follows_the_socket() {
    let mut s = DuplexStream::new(5u32);
    assert_eq!(s.poll_flush(IoOutcome::<(), &str>::Done(())), Poll::Ready(Ok(())));
    assert_eq!(s.poll_flush(IoOutcome::<(), &str>::WouldBlock), Poll::Pending);
    assert_eq!(s.poll_flush(IoOutcome::<(), &str>::Failed("gone")), Poll::Ready(Err("gone")));
}

#[test]
fn shutdown_closes_the_outbound_half_only() {
    let s = DuplexStream::new(5u32);
    assert_eq!(s.shutdown_direction(), Direction::Write);
    assert_ne!(s.shutdown_direction(), Direction::Both);
    assert_ne!(s.shutdown_direction(), Direction::Read);
}

#[test]
fn poll_shutdown_never_parks() {
    let mut s = DuplexStream::new(5u32);
    assert_eq!(s.poll_shutdown(Ok::<(), &str>(())), Poll::Ready(Ok(())));
    assert_eq!(s.poll_shutdown(Err::<(), &str>("not connected")), Poll::Ready(Err("not connected")));
}

#[test]
fn outcome_turns_into_step() {
    assert_eq!(IoOutcome::<u8, u8>::Done(1).into_poll(), Poll::Ready(Ok(1)));
    assert_eq!(IoOutcome::<u8, u8>::Failed(2).into_poll(), Poll::Ready(Err(2)));
    assert_eq!(IoOutcome::<u8, u8>::WouldBlock.into_poll(), Poll::Pending);
}

#[test]
fn stream_gives_its_socket_back() {
    let mut s = DuplexStream::new(vec![1u8, 2]);
    s.get_mut().push(3);
    assert_eq!(s.get_ref().len(), 3);
    assert_eq!(s.into_inner(), vec![1u8, 2, 3]);
}

#[test]
fn connected_is_empty_metadata() {
    let s = DuplexStream::new(5u32);
    let meta = s.connected();
    assert!(!meta.is_proxied());
    assert!(!meta.is_negotiated_h2());
    assert!(is_plain(&meta));
}

#[test]
fn connected_does_not_depend_on_the_state_of_the_connection() {
    let mut s = stream(1, 4);
    s.write(b"abcdef");
    s.get_mut().peer_reset();
    assert!(is_plain(&s.connected()));
    assert_eq!(s.get_ref().delivered(), b"abcd");
}

#[test]
fn plain_metadata_marks_neither_proxy_nor_http2() {
    assert!(is_plain(&Connected::new()));
    assert!(is_plain(&Connected::new().proxy(false)));
    assert!(!is_plain(&Connected::new().proxy(true)));
    assert!(!is_plain(&Connected::new().negotiated_h2()));
    assert!(!is_plain(&Connected::new().proxy(true).negotiated_h2()));
}

#[test]
fn read_parks_until_the_peer_sends() {
    let mut s = stream(1, 16);
    let mut buf = [0u8; 8];
    assert_eq!(s.read(&mut buf), Poll::Pending);
    assert!(s.get_ref().reader_parked());
    assert!(s.get_mut().peer_send(b"abc"));
    assert!(!s.get_ref().reader_parked());
    assert_eq!(s.read(&mut buf), Poll::Ready(Ok(3)));
    assert_eq!(buf, [b'a', b'b', b'c', 0, 0, 0, 0, 0]);
    assert_eq!(s.read(&mut buf), Poll::Pending);
}

#[test]
fn read_completes_with_zero_after_the_peer_half_closes() {
    let mut s = stream(1, 16);
    let mut buf = [7u8; 4];
    assert_eq!(s.read(&mut buf), Poll::Pending);
    assert!(s.get_mut().peer_close());
    assert_eq!(s.read(&mut buf), Poll::Ready(Ok(0)));
    assert_eq!(buf, [7u8; 4]);
    assert_eq!(s.read(&mut buf), Poll::Ready(Ok(0)));
}

#[test]
fn read_drains_buffered_bytes_before_end_of_stream() {
    let mut s = stream(1, 16);
    assert!(!s.get_mut().peer_send(b"0123456789"));
    assert!(!s.get_mut().peer_close());
    let mut buf = [0u8; 4];
    assert_eq!(s.read(&mut buf), Poll::Ready(Ok(4)));
    assert_eq!(&buf, b"0123");
    assert_eq!(s.read(&mut buf), Poll::Ready(Ok(4)));
    assert_eq!(&buf, b"4567");
    assert_eq!(s.read(&mut buf), Poll::Ready(Ok(2)));
    assert_eq!(&buf, b"8967");
    assert_eq!(s.read(&mut buf), Poll::Ready(Ok(0)));
}

#[test]
fn read_into_an_empty_buffer_completes_with_zero() {
    let mut s = stream(1, 16);
    let mut buf = [0u8; 0];
    assert_eq!(s.read(&mut buf), Poll::Ready(Ok(0)));
    assert!(!s.get_ref().reader_parked());
    s.get_mut().peer_send(b"xy");
    assert_eq!(s.read(&mut buf), Poll::Ready(Ok(0)));
    let mut two = [0u8; 2];
    assert_eq!(s.read(&mut two), Poll::Ready(Ok(2)));
    assert_eq!(&two, b"xy");
}

#[test]
fn bytes_sent_after_the_peer_closed_do_not_arrive() {
    let mut s = stream(1, 16);
    s.get_mut().peer_close();
    assert!(!s.get_mut().peer_send(b"late"));
    let mut buf = [0u8; 4];
    assert_eq!(s.read(&mut buf), Poll::Ready(Ok(0)));
}

#[test]
fn short_writes_reassemble_to_the_payload() {
    let payload = b"Hello, world!";
    let mut s = stream(1, 3);
    let mut sent = 0usize;
    let mut counts = Vec::new();
    while sent < payload.len() {
        match s.write(&payload[sent..]) {
            Poll::Ready(Ok(n)) => {
                assert!(n > 0);
                counts.push(n);
                sent += n;
            }
            other => panic!("write did not complete: {:?}", other),
        }
    }
    assert_eq!(counts, vec![3, 3, 3, 3, 1]);
    assert_eq!(s.get_ref().delivered(), payload);
}

#[test]
fn write_takes_everything_that_fits() {
    let mut s = stream(1, 64);
    assert_eq!(s.write(b"abc"), Poll::Ready(Ok(3)));
    assert_eq!(s.write(b"de"), Poll::Ready(Ok(2)));
    assert_eq!(s.get_ref().delivered(), b"abcde");
}

#[test]
fn write_parks_while_the_outbound_buffer_is_full() {
    let mut s = stream(1, 0);
    assert_eq!(s.write(b"abc"), Poll::Pending);
    assert!(s.get_ref().writer_parked());
    assert_eq!(s.write(b"abc"), Poll::Pending);
    assert!(!s.get_mut().drain(0));
    assert!(s.get_ref().writer_parked());
    assert!(s.get_mut().drain(2));
    assert!(!s.get_ref().writer_parked());
    assert_eq!(s.write(b"abc"), Poll::Ready(Ok(2)));
    assert_eq!(s.get_ref().delivered(), b"ab");
}

#[test]
fn write_of_nothing_completes_with_zero() {
    let mut s = stream(1, 0);
    assert_eq!(s.write(b""), Poll::Ready(Ok(0)));
    assert!(!s.get_ref().writer_parked());
    assert_eq!(s.get_ref().delivered(), b"");
}

#[test]
fn flush_succeeds_and_changes_nothing() {
    let mut s = stream(1, 4);
    s.write(b"abcdef");
    assert_eq!(s.flush(), Poll::Ready(Ok(())));
    assert_eq!(s.get_ref().delivered(), b"abcd");
}

#[test]
fn read_still_works_after_shutdown() {
    let mut s = stream(1, 16);
    s.get_mut().peer_send(b"data");
    assert_eq!(s.shutdown(), Poll::Ready(Ok(())));
    let mut buf = [0u8; 8];
    assert_eq!(s.read(&mut buf), Poll::Ready(Ok(4)));
    assert_eq!(&buf[..4], b"data");
    assert_eq!(s.read(&mut buf), Poll::Pending);
    assert!(s.get_mut().peer_send(b"more"));
    assert_eq!(s.read(&mut buf), Poll::Ready(Ok(4)));
    assert_eq!(&buf[..4], b"more");
    s.get_mut().peer_close();
    assert_eq!(s.read(&mut buf), Poll::Ready(Ok(0)));
}

#[test]
fn write_after_shutdown_is_a_broken_pipe() {
    let mut s = stream(1, 16);
    assert_eq!(s.write(b"ab"), Poll::Ready(Ok(2)));
    assert_eq!(s.shutdown(), Poll::Ready(Ok(())));
    assert_eq!(s.write(b"cd"), Poll::Ready(Err(Fault::BrokenPipe)));
    assert_eq!(s.write(b""), Poll::Ready(Err(Fault::BrokenPipe)));
    assert_eq!(s.get_ref().delivered(), b"ab");
    assert_eq!(s.shutdown(), Poll::Ready(Ok(())));
}

#[test]
fn reset_fails_reads_writes_and_shutdown() {
    let mut s = stream(1, 16);
    s.get_mut().peer_send(b"lost");
    let mut buf = [0u8; 8];
    assert!(!s.get_mut().peer_reset());
    assert_eq!(s.read(&mut buf), Poll::Ready(Err(Fault::ConnectionReset)));
    assert_eq!(buf, [0u8; 8]);
    assert_eq!(s.write(b"x"), Poll::Ready(Err(Fault::ConnectionReset)));
    assert_eq!(s.shutdown(), Poll::Ready(Err(Fault::NotConnected)));
    assert_eq!(s.flush(), Poll::Ready(Ok(())));
    assert_eq!(s.get_ref().delivered(), b"");
}

#[test]
fn reset_wakes_a_parked_reader() {
    let mut s = stream(1, 16);
    let mut buf = [0u8; 8];
    assert_eq!(s.read(&mut buf), Poll::Pending);
    assert!(s.get_mut().peer_reset());
    assert!(!s.get_ref().reader_parked());
    assert_eq!(s.read(&mut buf), Poll::Ready(Err(Fault::ConnectionReset)));
}

#[test]
fn closing_the_inbound_half_discards_what_was_buffered() {
    let mut sock = MemSocket::new(9, 16);
    sock.peer_send(b"unread");
    assert_eq!(sock.shutdown(Direction::Read), Ok(()));
    let mut buf = [0u8; 8];
    assert_eq!(sock.try_read(&mut buf), IoOutcome::Done(0));
    assert!(!sock.peer_send(b"more"));
    assert_eq!(sock.try_read(&mut buf), IoOutcome::Done(0));
    assert_eq!(sock.try_write(b"ok"), IoOutcome::Done(2));
}

#[test]
fn closing_both_halves_ends_reads_and_writes() {
    let mut sock = MemSocket::new(9, 16);
    sock.peer_send(b"unread");
    assert_eq!(sock.shutdown(Direction::Both), Ok(()));
    let mut buf = [0u8; 8];
    assert_eq!(sock.try_read(&mut buf), IoOutcome::Done(0));
    assert_eq!(sock.try_write(b"no"), IoOutcome::Failed(Fault::BrokenPipe));
    assert_eq!(sock.try_flush(), IoOutcome::Done(()));
    assert_eq!(sock.id(), 9);
}

#[test]
fn shutdown_wakes_a_parked_writer() {
    let mut s = stream(1, 0);
    assert_eq!(s.write(b"abc"), Poll::Pending);
    assert!(s.get_ref().writer_parked());
    assert_eq!(s.shutdown(), Poll::Ready(Ok(())));
    assert!(!s.get_ref().writer_parked());
    assert_eq!(s.write(b"abc"), Poll::Ready(Err(Fault::BrokenPipe)));
}

#[test]
fn closing_the_inbound_half_wakes_a_parked_reader() {
    let mut sock = MemSocket::new(9, 16);
    let mut buf = [0u8; 8];
    assert_eq!(sock.try_read(&mut buf), IoOutcome::WouldBlock);
    assert!(sock.reader_parked());
    assert_eq!(sock.shutdown(Direction::Read), Ok(()));
    assert!(!sock.reader_parked());
    assert_eq!(sock.try_read(&mut buf), IoOutcome::Done(0));
}
