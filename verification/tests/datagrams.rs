use bytes::{Bytes, BytesMut};
use std::sync::Arc;
use tokio::io::ReadBuf;
use uni_stream::datagram::{prepare_receive, reserve_amount, take_datagram, try_take_datagram, UDP_BUFFER_SIZE};
use uni_stream::error::{ErrorKind, NetError};
use uni_stream::net::{IpAddr, Ipv4Addr, Ipv6Addr, SocketAddr, SocketAddrV6};
use uni_stream::read::{
    poll_read, poll_read_incoming, recv_datagram, recv_datagram_incoming, Polled, ReadStep,
    ReceiveStep,
};
use uni_stream::stream::{StreamSplit, UdpStreamImpl};
use uni_stream::timeout::Duration;
use uni_stream::udp::{
    finish_send, local_addr_for, poll_write, pump, try_pump, PumpAction, PumpEvent, SendTarget,
    StreamParts, Transport, UdpStream,
};

/// Handles that can be told apart.
struct Plain;

impl Transport for Plain {
    type Socket = &'static str;
    type Receiver = u8;
    type Incoming = u16;
    type Timer = u32;
    type HandlerGuard = Arc<u64>;
    type ListenerGuard = Arc<u128>;
}

fn addr(d: u8) -> SocketAddr {
    SocketAddr::new(IpAddr::V4(Ipv4Addr::new(10, 0, 0, d)), 9000)
}

fn parts() -> StreamParts<Plain> {
    StreamParts {
        local_addr: addr(1),
        peer_addr: addr(2),
        socket: "socket",
        receiver: 3,
        recv_stream: 4,
        timeout: 5,
    }
}

fn says(e: NetError, kind: ErrorKind, message: &str) {
    assert_eq!(e.kind, kind);
    assert_eq!(e.message, message);
}

/// A read into a buffer of `size` bytes; `None` where it has to wait.
fn read(remaining: &mut Option<Bytes>, queue: &mut Vec<Bytes>, size: usize) -> Option<Vec<u8>> {
    let mut storage = vec![0u8; size];
    let mut buf = ReadBuf::new(&mut storage);
    let timeout = Duration::from_secs(20);
    match poll_read(remaining, false, &timeout, &mut buf) {
        ReadStep::Delivered => {}
        ReadStep::Fail(e) => panic!("{}", e.message),
        ReadStep::AwaitDatagram => {
            let incoming = if queue.is_empty() {
                Polled::Pending
            } else {
                Polled::Ready(Some(queue.remove(0)))
            };
            match poll_read_incoming(remaining, incoming, &mut buf) {
                ReadStep::Delivered => {}
                ReadStep::Fail(e) => panic!("{}", e.message),
                ReadStep::AwaitDatagram => return None,
            }
        }
    }
    Some(buf.filled().to_vec())
}

#[test]
fn small_reads_cut_a_datagram() {
    let mut remaining = None;
    let mut queue = vec![Bytes::from_static(b"hello world"), Bytes::from_static(b"abc")];
    assert_eq!(read(&mut remaining, &mut queue, 5).unwrap(), b"hello");
    assert_eq!(remaining.as_ref().unwrap(), &b" world"[..]);
    assert_eq!(read(&mut remaining, &mut queue, 3).unwrap(), b" wo");
    assert_eq!(read(&mut remaining, &mut queue, 3).unwrap(), b"rld");
    assert!(remaining.is_none());
    assert_eq!(read(&mut remaining, &mut queue, 100).unwrap(), b"abc");
    assert!(read(&mut remaining, &mut queue, 100).is_none());
}

#[test]
fn reads_never_mix_datagrams() {
    let mut remaining = None;
    let mut queue = vec![Bytes::from_static(b"AAAA"), Bytes::from_static(b"BB")];
    assert_eq!(read(&mut remaining, &mut queue, 3).unwrap(), b"AAA");
    assert_eq!(read(&mut remaining, &mut queue, 3).unwrap(), b"A");
    assert_eq!(read(&mut remaining, &mut queue, 3).unwrap(), b"BB");
}

#[test]
fn every_byte_comes_once_and_in_order() {
    let datagrams = [&b"one"[..], b"", b"twenty-two", b"x", b"the last of them"];
    for size in [1usize, 2, 3, 7, 64] {
        let mut remaining = None;
        let mut queue: Vec<Bytes> = datagrams.iter().map(|d| Bytes::from_static(d)).collect();
        let mut seen = Vec::new();
        while let Some(part) = read(&mut remaining, &mut queue, size) {
            assert!(part.len() <= size);
            seen.extend(part);
        }
        assert_eq!(seen, datagrams.concat());
    }
}

#[test]
fn bytes_keep_their_order_while_datagrams_come_in() {
    let mut remaining = None;
    let mut queue = vec![Bytes::from_static(b"abcde")];
    assert_eq!(read(&mut remaining, &mut queue, 2).unwrap(), b"ab");
    queue.push(Bytes::from_static(b"fg"));
    assert_eq!(read(&mut remaining, &mut queue, 2).unwrap(), b"cd");
    assert_eq!(read(&mut remaining, &mut queue, 2).unwrap(), b"e");
    queue.push(Bytes::from_static(b"h"));
    assert_eq!(read(&mut remaining, &mut queue, 2).unwrap(), b"fg");
    assert_eq!(read(&mut remaining, &mut queue, 2).unwrap(), b"h");
    assert!(read(&mut remaining, &mut queue, 2).is_none());
}

#[test]
fn connected_stream_reads_its_peer_alone() {
    let mut queue = Vec::new();
    let traffic = [(2u8, &b"one"[..]), (9, b"noise"), (2, b"two"), (3, b""), (2, b"three")];
    for (from, data) in traffic {
        let mut buf = BytesMut::from(data);
        let event = PumpEvent::Received { len: data.len(), from: addr(from) };
        if let Some(PumpAction::Deliver(datagram)) = try_pump(&addr(2), event, &mut buf) {
            queue.push(datagram);
        }
    }
    let mut remaining = None;
    for expected in [&b"one"[..], b"two", b"three"] {
        assert_eq!(read(&mut remaining, &mut queue, 100).unwrap(), expected);
    }
    assert!(read(&mut remaining, &mut queue, 100).is_none());
}

#[test]
fn empty_buffer_takes_nothing() {
    let mut remaining = None;
    let mut queue = vec![Bytes::from_static(b"abc")];
    assert_eq!(read(&mut remaining, &mut queue, 0).unwrap(), b"");
    assert_eq!(remaining.as_ref().unwrap(), &b"abc"[..]);
    assert_eq!(read(&mut remaining, &mut queue, 0).unwrap(), b"");
    assert_eq!(read(&mut remaining, &mut queue, 3).unwrap(), b"abc");
}

#[test]
fn reads_append_to_a_filled_buffer() {
    let mut storage = [0u8; 6];
    let mut buf = ReadBuf::new(&mut storage);
    buf.put_slice(b"ab");
    let mut remaining = Some(Bytes::from_static(b"cdefgh"));
    let step = poll_read(&mut remaining, false, &Duration::from_secs(1), &mut buf);
    assert!(matches!(step, ReadStep::Delivered));
    assert_eq!(buf.filled(), b"abcdef");
    assert_eq!(remaining.unwrap(), &b"gh"[..]);
}

#[test]
fn idle_timer_ends_a_read() {
    let mut storage = [0u8; 4];
    let mut buf = ReadBuf::new(&mut storage);
    buf.put_slice(b"ab");
    let mut remaining = Some(Bytes::from_static(b"left"));
    match poll_read(&mut remaining, true, &Duration::from_secs(20), &mut buf) {
        ReadStep::Fail(e) => {
            says(e, ErrorKind::TimedOut, "UdpStream timeout with duration:20s")
        }
        _ => panic!("the timer ran out"),
    }
    assert!(buf.filled().is_empty());
    assert_eq!(remaining.unwrap(), &b"left"[..]);
}

#[test]
fn timeout_message_is_the_debug_text_of_the_span() {
    let timeout = Duration::from_parts(1, 500_000_000).unwrap();
    match recv_datagram(&None, true, &timeout) {
        ReceiveStep::Fail(e) => {
            says(e, ErrorKind::TimedOut, "UdpStream timeout with duration:1.5s")
        }
        _ => panic!("the timer ran out"),
    }
}

#[test]
fn closed_channel_is_a_broken_pipe() {
    let mut storage = [0u8; 4];
    let mut buf = ReadBuf::new(&mut storage);
    match poll_read_incoming(&mut None, Polled::Ready(None), &mut buf) {
        ReadStep::Fail(e) => says(e, ErrorKind::BrokenPipe, "Broken pipe"),
        _ => panic!("the channel is closed"),
    }
    match recv_datagram_incoming(Polled::Ready(None)) {
        ReceiveStep::Fail(e) => says(e, ErrorKind::BrokenPipe, "Broken pipe"),
        _ => panic!("the channel is closed"),
    }
}

#[test]
fn whole_datagrams_keep_their_boundaries() {
    let timeout = Duration::from_secs(20);
    for datagram in [&b"A"[..], b"", b"CCC"] {
        assert!(matches!(recv_datagram(&None, false, &timeout), ReceiveStep::AwaitDatagram));
        match recv_datagram_incoming(Polled::Ready(Some(Bytes::from_static(datagram)))) {
            ReceiveStep::Received(got) => assert_eq!(got, datagram),
            _ => panic!("a datagram came"),
        }
    }
    assert!(matches!(recv_datagram_incoming(Polled::Pending), ReceiveStep::AwaitDatagram));
}

#[test]
fn whole_datagram_is_refused_while_bytes_are_left_over() {
    let timeout = Duration::from_secs(20);
    for timer_fired in [false, true] {
        match recv_datagram(&Some(Bytes::from_static(b"x")), timer_fired, &timeout) {
            ReceiveStep::Fail(e) => says(
                e,
                ErrorKind::InvalidData,
                "udp stream has buffered bytes; cannot recv datagram",
            ),
            _ => panic!("bytes are left over"),
        }
    }
}

#[test]
fn receive_buffer_has_room_for_a_datagram() {
    assert_eq!(UDP_BUFFER_SIZE, 65_507);
    assert_eq!(reserve_amount(65_507), None);
    assert_eq!(reserve_amount(65_506), Some(196_521));
    let mut buf = BytesMut::from(&b"old"[..]);
    prepare_receive(&mut buf);
    assert!(buf.is_empty());
    assert!(buf.capacity() >= UDP_BUFFER_SIZE);
}

#[test]
fn datagrams_are_taken_from_the_front() {
    let mut buf = BytesMut::from(&b"hello world"[..]);
    assert_eq!(take_datagram(&mut buf, 5), &b"hello"[..]);
    assert_eq!(buf, &b" world"[..]);
    assert_eq!(take_datagram(&mut buf, 0), &b""[..]);
    assert_eq!(try_take_datagram(&mut buf, 7), None);
    assert_eq!(buf, &b" world"[..]);
    assert_eq!(try_take_datagram(&mut buf, 6).unwrap(), &b" world"[..]);
    assert!(buf.is_empty());
}

#[test]
fn connected_stream_passes_strangers_over() {
    let mut buf = BytesMut::from(&b"data"[..]);
    let stranger = PumpEvent::Received { len: 4, from: addr(9) };
    assert!(matches!(pump(&addr(2), stranger, &mut buf), PumpAction::Receive));
    assert_eq!(buf, &b"data"[..]);
    let mut scoped = SocketAddrV6::new(Ipv6Addr { bits: 1 }, 1, 0, 0);
    let peer = SocketAddr::V6(scoped);
    scoped.scope_id = 2;
    let event = PumpEvent::Received { len: 4, from: SocketAddr::V6(scoped) };
    assert!(matches!(pump(&peer, event, &mut buf), PumpAction::Receive));
    let long = PumpEvent::Received { len: 5, from: addr(2) };
    assert!(try_pump(&addr(2), long, &mut buf).is_none());
    assert!(matches!(try_pump(&addr(3), long, &mut buf), Some(PumpAction::Receive)));
    match pump(&addr(2), PumpEvent::Received { len: 4, from: addr(2) }, &mut buf) {
        PumpAction::Deliver(datagram) => assert_eq!(datagram, &b"data"[..]),
        _ => panic!("the peer sent it"),
    }
}

#[test]
fn receiving_task_ends_with_its_socket_or_channel() {
    let mut buf = BytesMut::new();
    let peer = addr(2);
    assert!(matches!(pump(&peer, PumpEvent::ReceiveFailed, &mut buf), PumpAction::Stop));
    let sent = PumpEvent::Delivered { sent: true };
    assert!(matches!(pump(&peer, sent, &mut buf), PumpAction::Receive));
    let unsent = PumpEvent::Delivered { sent: false };
    assert!(matches!(pump(&peer, unsent, &mut buf), PumpAction::Stop));
}

#[test]
fn sending_goes_to_the_peer() {
    assert_eq!(poll_write(true, &addr(2)), SendTarget::Connected);
    assert_eq!(poll_write(false, &addr(2)), SendTarget::To(addr(2)));
    let connected = UdpStream::from_socket(parts(), true, Arc::new(6));
    assert_eq!(connected.send_datagram(), SendTarget::Connected);
    let accepted = UdpStream::accepted(parts(), Arc::new(7));
    assert_eq!(accepted.send_datagram(), SendTarget::To(addr(2)));
    let (_, writer) = accepted.split(8, 9);
    assert_eq!(writer.send_datagram(), SendTarget::To(addr(2)));
    let (_, writer) = accepted.into_split();
    assert_eq!(writer.send_datagram(), SendTarget::To(addr(2)));
}

#[test]
fn truncated_datagram_is_an_error() {
    assert!(finish_send(5, 5).is_ok());
    assert!(finish_send(0, 0).is_ok());
    says(finish_send(4, 5).unwrap_err(), ErrorKind::WriteZero, "udp datagram truncated");
    says(finish_send(6, 5).unwrap_err(), ErrorKind::WriteZero, "udp datagram truncated");
}

#[test]
fn streams_know_their_addresses() {
    let stream = UdpStream::accepted(parts(), Arc::new(7));
    assert_eq!(stream.local_addr().unwrap(), addr(1));
    assert_eq!(stream.peer_addr().unwrap(), addr(2));
    assert!(stream.handler_guard.is_none() && stream.listener_guard.is_some());
    assert!(stream.remaining.is_none());
    let stream = UdpStream::from_socket(parts(), true, Arc::new(6));
    assert!(stream.handler_guard.is_some() && stream.listener_guard.is_none());
}

#[test]
fn split_copies_what_is_left_over() {
    let mut stream = UdpStream::from_socket(parts(), true, Arc::new(6));
    stream.remaining = Some(Bytes::from_static(b"rest"));
    let (reader, writer) = stream.split(40, 50);
    assert_eq!(reader.remaining.as_ref().unwrap(), &b"rest"[..]);
    assert_eq!((reader.recv_stream, reader.timeout), (40, 50));
    assert!(writer.is_connect);
    assert_eq!(*writer.socket, "socket");
    assert_eq!(writer.peer_addr, addr(2));
    let refused = reader.recv_datagram(false, &Duration::from_secs(1));
    assert!(matches!(refused, ReceiveStep::Fail(_)));
    assert_eq!(stream.remaining.as_ref().unwrap(), &b"rest"[..]);
}

#[test]
fn wrapper_lends_the_halves_of_its_stream() {
    let mut stream = UdpStream::<Plain>::accepted(parts(), Arc::new(7));
    stream.remaining = Some(Bytes::from_static(b"rest"));
    let mut wrapper = UdpStreamImpl::new(stream);
    let (reader, writer) = wrapper.split((40, 50));
    assert_eq!((reader.recv_stream, reader.timeout), (40, 50));
    assert_eq!(reader.remaining.as_ref().unwrap(), &b"rest"[..]);
    assert_eq!((writer.is_connect, *writer.socket, writer.peer_addr), (false, "socket", addr(2)));
    assert_eq!((wrapper.0.recv_stream, wrapper.0.timeout), (4, 5));
    assert_eq!(wrapper.0.remaining.as_ref().unwrap(), &b"rest"[..]);
}

#[test]
fn owned_halves_share_the_guard() {
    let alive = Arc::new(7u128);
    let mut stream = UdpStream::<Plain>::accepted(parts(), alive.clone());
    stream.remaining = Some(Bytes::from_static(b"rest"));
    let (reader, writer) = UdpStreamImpl::new(stream).into_split();
    assert_eq!((reader.recv_stream, reader.timeout), (4, 5));
    assert_eq!(reader.remaining.as_ref().unwrap(), &b"rest"[..]);
    assert_eq!((writer.is_connect, writer.socket, writer.peer_addr), (false, "socket", addr(2)));
    let step = reader.recv_datagram(false, &Duration::from_secs(1));
    assert!(matches!(step, ReceiveStep::Fail(_)));
    drop(reader);
    assert_eq!(Arc::strong_count(&alive), 2);
    drop(writer);
    assert_eq!(Arc::strong_count(&alive), 1);
}

#[test]
fn connecting_sockets_bind_to_any_address_of_the_family() {
    let any = SocketAddr::new(IpAddr::V4(Ipv4Addr { bits: 0 }), 0);
    assert_eq!(local_addr_for(&addr(2)), any);
    let six = SocketAddr::V6(SocketAddrV6::new(Ipv6Addr { bits: 3 }, 1, 2, 3));
    let any = SocketAddr::new(IpAddr::V6(Ipv6Addr { bits: 0 }), 0);
    assert_eq!(local_addr_for(&six), any);
}
