use bytes::Bytes;
use uni_stream::error::{ErrorKind, Failure};
use uni_stream::listener::{ListenerAction, ListenerEvent, ListenerLoop, UdpListener};
use uni_stream::net::{IpAddr, Ipv4Addr, Ipv6Addr, SocketAddr, SocketAddrV6};
use uni_stream::peers::PeerTable;

fn peer(d: u8) -> SocketAddr {
    SocketAddr::new(IpAddr::V4(Ipv4Addr::new(10, 0, 0, d)), 9000)
}

fn received(from: SocketAddr) -> ListenerEvent<u32> {
    ListenerEvent::Received { peer: from, datagram: Bytes::from_static(b"data") }
}

/// Opens a stream for a peer, with this sender.
fn open_for(listener: &mut ListenerLoop<u32>, from: SocketAddr, sender: u32) {
    match listener.step(received(from)) {
        ListenerAction::Open { peer, datagram } => {
            assert_eq!(peer, from);
            assert_eq!(datagram, &b"data"[..]);
        }
        _ => panic!("the peer is new"),
    }
    match listener.step(ListenerEvent::Seeded { peer: from, sender, sent: true }) {
        ListenerAction::Register { peer, sender: s } => assert_eq!((peer, s), (from, sender)),
        _ => panic!("the first datagram was taken"),
    }
    let taken = ListenerEvent::Registered { peer: from, sender, sent: true };
    assert!(matches!(listener.step(taken), ListenerAction::Wait));
}

fn is_known(listener: &mut ListenerLoop<u32>, from: SocketAddr) -> bool {
    match listener.step(received(from)) {
        ListenerAction::Forward { peer, datagram } => {
            assert_eq!(peer, from);
            assert_eq!(datagram, &b"data"[..]);
            true
        }
        ListenerAction::Open { peer, .. } => {
            assert_eq!(peer, from);
            false
        }
        _ => panic!("a datagram has to go somewhere"),
    }
}

#[test]
fn known_peers_get_their_datagrams() {
    let mut listener = ListenerLoop::new();
    open_for(&mut listener, peer(1), 11);
    open_for(&mut listener, peer(2), 12);
    assert!(is_known(&mut listener, peer(1)));
    assert!(is_known(&mut listener, peer(2)));
    assert!(!is_known(&mut listener, peer(3)));
    assert_eq!(listener.sender(&peer(1)), Some(&11));
    assert_eq!(listener.sender(&peer(2)), Some(&12));
    assert_eq!(listener.sender(&peer(3)), None);
}

#[test]
fn closed_channel_forgets_its_peer() {
    let mut listener = ListenerLoop::new();
    open_for(&mut listener, peer(1), 11);
    open_for(&mut listener, peer(2), 12);
    listener.step(ListenerEvent::Forwarded { peer: peer(1), sent: true });
    assert!(is_known(&mut listener, peer(1)));
    listener.step(ListenerEvent::Forwarded { peer: peer(1), sent: false });
    assert!(!is_known(&mut listener, peer(1)));
    assert!(is_known(&mut listener, peer(2)));
    open_for(&mut listener, peer(1), 21);
    assert_eq!(listener.sender(&peer(1)), Some(&21));
}

#[test]
fn dropped_streams_forget_their_peers() {
    let mut listener = ListenerLoop::new();
    for d in 1..=5 {
        open_for(&mut listener, peer(d), d as u32);
    }
    let dropped = vec![peer(4), peer(2), peer(2), peer(9)];
    assert!(matches!(listener.step(ListenerEvent::Cleanup(dropped)), ListenerAction::Wait));
    for d in 1..=5 {
        assert_eq!(is_known(&mut listener, peer(d)), d != 2 && d != 4);
    }
    assert!(matches!(listener.step(ListenerEvent::CleanupFailed), ListenerAction::Wait));
    assert!(is_known(&mut listener, peer(1)));
}

#[test]
fn failures_open_nothing() {
    let mut listener = ListenerLoop::new();
    assert!(matches!(listener.step(ListenerEvent::ReceiveFailed), ListenerAction::Wait));
    let unseeded = ListenerEvent::Seeded { peer: peer(1), sender: 1, sent: false };
    assert!(matches!(listener.step(unseeded), ListenerAction::Wait));
    let untaken = ListenerEvent::Registered { peer: peer(1), sender: 1, sent: false };
    assert!(matches!(listener.step(untaken), ListenerAction::Wait));
    assert!(!is_known(&mut listener, peer(1)));
    assert_eq!(listener.sender(&peer(1)), None);
}

#[test]
fn each_stream_hears_its_own_peer() {
    let mut listener = ListenerLoop::<usize>::new();
    let mut channels: Vec<Vec<u8>> = Vec::new();
    let mut accepted = Vec::new();
    let datagrams = [(3u8, 1u8), (1, 2), (3, 3), (2, 4), (1, 5), (3, 6), (2, 7)];
    for (from, data) in datagrams {
        let datagram = Bytes::copy_from_slice(&[data]);
        match listener.step(ListenerEvent::Received { peer: peer(from), datagram }) {
            ListenerAction::Forward { peer, datagram } => {
                let sender = *listener.sender(&peer).unwrap();
                channels[sender].extend_from_slice(&datagram);
                listener.step(ListenerEvent::Forwarded { peer, sent: true });
            }
            ListenerAction::Open { peer, datagram } => {
                let sender = channels.len();
                channels.push(datagram.to_vec());
                let seeded = ListenerEvent::Seeded { peer, sender, sent: true };
                match listener.step(seeded) {
                    ListenerAction::Register { peer, sender } => {
                        accepted.push(peer);
                        listener.step(ListenerEvent::Registered { peer, sender, sent: true });
                    }
                    _ => panic!("the first datagram was taken"),
                }
            }
            _ => panic!("a datagram has to go somewhere"),
        }
    }
    assert_eq!(channels, vec![vec![1, 3, 6], vec![2, 5], vec![4, 7]]);
    assert_eq!(accepted, vec![peer(3), peer(1), peer(2)]);
}

#[test]
fn peer_table_is_a_map() {
    let mut table = PeerTable::new();
    assert_eq!(table.get(&peer(1)), None);
    assert_eq!(table.insert(peer(1), "a"), None);
    assert_eq!(table.insert(peer(2), "b"), None);
    assert_eq!(table.insert(peer(1), "c"), Some("a"));
    assert_eq!(table.get(&peer(1)), Some(&"c"));
    assert_eq!(table.remove(&peer(1)), Some("c"));
    assert_eq!(table.remove(&peer(1)), None);
    assert_eq!(table.get(&peer(1)), None);
    assert_eq!(table.get(&peer(2)), Some(&"b"));
    assert_eq!(table.insert(peer(3), "d"), None);
    assert_eq!(table.get(&peer(2)), Some(&"b"));
    assert_eq!(table.get(&peer(3)), Some(&"d"));
}

#[test]
fn peer_table_tells_scopes_apart() {
    let mut table = PeerTable::new();
    let scoped = |id: u32| SocketAddr::V6(SocketAddrV6::new(Ipv6Addr { bits: 1 }, 1, 0, id));
    table.insert(scoped(1), 1);
    table.insert(scoped(2), 2);
    assert_eq!(table.get(&scoped(1)), Some(&1));
    assert_eq!(table.get(&scoped(2)), Some(&2));
    assert_eq!(table.get(&scoped(3)), None);
}

#[test]
fn accept_hands_out_streams() {
    let listener = UdpListener { local_addr: peer(7) };
    assert_eq!(listener.local_addr().unwrap(), peer(7));
    let stream = listener.accept::<_, ()>(Ok(("stream", peer(1))));
    assert_eq!(stream.unwrap(), ("stream", peer(1)));
    match listener.accept::<(), _>(Err("closed")) {
        Err(Failure::Caused { kind, cause }) => {
            assert_eq!((kind, cause), (ErrorKind::BrokenPipe, "closed"))
        }
        _ => panic!("the channel is closed"),
    }
}
