//! The receive loop of a UDP listener, as decisions: which stream a datagram
//! belongs to, when a new stream is opened and when a peer is forgotten.

use crate::datagram::bytes_of;
use crate::delivery::{
    arrivals, joined, new_stream_hands_out_what_comes_in, only_receives, Inbox, Step,
};
use crate::error::{ErrorKind, Failure, NetError};
use crate::net::SocketAddr;
use crate::peers::PeerTable;
use bytes::Bytes;
use vstd::prelude::*;

verus! {

/// How many datagrams, or new streams, wait in a channel before the sender has
/// to.
pub const UDP_CHANNEL_LEN: usize = 100;

/// How many peers of dropped streams wait in the channel that tells a listener of
/// them; with that many waiting, others go untold.
pub const UDP_CLEANUP_LEN: usize = 10;

/// What happened to a listener. `T` is the sending end of the channel of a
/// stream.
pub enum ListenerEvent<T> {
    /// The streams of these peers were dropped.
    Cleanup(Vec<SocketAddr>),
    /// The dropped streams could not be asked for.
    CleanupFailed,
    /// A datagram came in.
    Received { peer: SocketAddr, datagram: Bytes },
    /// The socket failed to receive.
    ReceiveFailed,
    /// A datagram was handed to the channel of a known peer, which took it or
    /// not.
    Forwarded { peer: SocketAddr, sent: bool },
    /// The first datagram of a new peer was handed to a fresh channel, which
    /// took it or not.
    Seeded { peer: SocketAddr, sender: T, sent: bool },
    /// A new stream was handed to those who accept streams, and was taken or
    /// not.
    Registered { peer: SocketAddr, sender: T, sent: bool },
}

/// What a listener does next.
pub enum ListenerAction<T> {
    /// Wait for the next datagram or dropped stream.
    Wait,
    /// Hand the datagram to the channel of this known peer.
    Forward { peer: SocketAddr, datagram: Bytes },
    /// Make a channel for this new peer and hand it the datagram.
    Open { peer: SocketAddr, datagram: Bytes },
    /// Make a stream on the channel and hand it to those who accept streams.
    Register { peer: SocketAddr, sender: T },
}

impl<T> ListenerEvent<T> {
    /// The event takes the peer into the table.
    pub open spec fn admits(self, peer: SocketAddr) -> bool {
        self matches ListenerEvent::Registered { peer: p, sent, .. } && p == peer && sent
    }

    /// The event takes the peer out of the table.
    pub open spec fn forgets(self, peer: SocketAddr) -> bool {
        match self {
            ListenerEvent::Cleanup(peers) => peers@.contains(peer),
            ListenerEvent::Forwarded { peer: p, sent } => p == peer && !sent,
            _ => false,
        }
    }
}

/// The table of known peers after an event.
pub open spec fn peers_after<T>(
    peers: Map<SocketAddr, T>,
    event: ListenerEvent<T>,
) -> Map<SocketAddr, T> {
    match event {
        ListenerEvent::Cleanup(dropped) => peers.remove_keys(dropped@.to_set()),
        ListenerEvent::Forwarded { peer, sent } => if sent {
            peers
        } else {
            peers.remove(peer)
        },
        ListenerEvent::Registered { peer, sender, sent } => if sent {
            peers.insert(peer, sender)
        } else {
            peers
        },
        _ => peers,
    }
}

/// The answer to an event.
pub open spec fn answer<T>(
    peers: Map<SocketAddr, T>,
    event: ListenerEvent<T>,
) -> ListenerAction<T> {
    match event {
        ListenerEvent::Received { peer, datagram } => if peers.dom().contains(peer) {
            ListenerAction::Forward { peer, datagram }
        } else {
            ListenerAction::Open { peer, datagram }
        },
        ListenerEvent::Seeded { peer, sender, sent } => if sent {
            ListenerAction::Register { peer, sender }
        } else {
            ListenerAction::Wait
        },
        _ => ListenerAction::Wait,
    }
}

/// The state of the receive loop: the known peers, with the sending ends of
/// their channels. Its view is that map.
pub struct ListenerLoop<T> {
    streams: PeerTable<T>,
}

impl<T> View for ListenerLoop<T> {
    type V = Map<SocketAddr, T>;

    closed spec fn view(&self) -> Map<SocketAddr, T> {
        self.streams@
    }
}

impl<T> ListenerLoop<T> {
    pub closed spec fn wf(self) -> bool {
        self.streams.wf()
    }

    /// A listener that knows no peer.
    pub fn new() -> (l: ListenerLoop<T>)
        ensures
            l.wf(),
            l@ == Map::<SocketAddr, T>::empty(),
    {
        ListenerLoop { streams: PeerTable::new() }
    }

    /// The sending end of the channel of a known peer.
    pub fn sender(&self, peer: &SocketAddr) -> (sender: Option<&T>)
        requires
            self.wf(),
        ensures
            sender == (if self@.dom().contains(*peer) {
                Some(&self@[*peer])
            } else {
                None
            }),
    {
        self.streams.get(peer)
    }

    /// Takes note of what happened and says what to do next.
    pub fn step(&mut self, event: ListenerEvent<T>) -> (action: ListenerAction<T>)
        requires
            old(self).wf(),
        ensures
            final(self).wf(),
            final(self)@ == peers_after(old(self)@, event),
            action == answer(old(self)@, event),
            match event {
                ListenerEvent::Cleanup(dropped) => {
                    &&& action is Wait
                    &&& forall|peer: SocketAddr| #[trigger]
                        final(self)@.dom().contains(peer) <==> old(self)@.dom().contains(peer)
                            && !dropped@.contains(peer)
                    &&& forall|peer: SocketAddr| #[trigger]
                        final(self)@.dom().contains(peer) ==> final(self)@[peer] == old(self)@[peer]
                },
                ListenerEvent::Forwarded { peer, sent } => {
                    &&& action is Wait
                    &&& sent ==> final(self)@ == old(self)@
                    &&& !sent ==> final(self)@ == old(self)@.remove(peer)
                },
                ListenerEvent::Registered { peer, sender, sent } => {
                    &&& action is Wait
                    &&& sent ==> final(self)@ == old(self)@.insert(peer, sender)
                    &&& !sent ==> final(self)@ == old(self)@
                },
                ListenerEvent::Received { peer, datagram } => {
                    &&& final(self)@ == old(self)@
                    &&& old(self)@.dom().contains(peer) ==> action == (ListenerAction::<
                        T,
                    >::Forward { peer, datagram })
                    &&& !old(self)@.dom().contains(peer) ==> action == (ListenerAction::<
                        T,
                    >::Open { peer, datagram })
                },
                ListenerEvent::Seeded { peer, sender, sent } => {
                    &&& final(self)@ == old(self)@
                    &&& sent ==> action == (ListenerAction::Register { peer, sender })
                    &&& !sent ==> action is Wait
                },
                ListenerEvent::CleanupFailed | ListenerEvent::ReceiveFailed => {
                    &&& action is Wait
                    &&& final(self)@ == old(self)@
                },
            },
    {
        match event {
            ListenerEvent::Cleanup(dropped) => {
                self.forget(&dropped);
                ListenerAction::Wait
            },
            ListenerEvent::Received { peer, datagram } => match self.streams.get(&peer) {
                Some(_) => ListenerAction::Forward { peer, datagram },
                None => ListenerAction::Open { peer, datagram },
            },
            ListenerEvent::Forwarded { peer, sent } => {
                if !sent {
                    self.streams.remove(&peer);
                }
                ListenerAction::Wait
            },
            ListenerEvent::Seeded { peer, sender, sent } => if sent {
                ListenerAction::Register { peer, sender }
            } else {
                ListenerAction::Wait
            },
            ListenerEvent::Registered { peer, sender, sent } => {
                if sent {
                    self.streams.insert(peer, sender);
                }
                ListenerAction::Wait
            },
            ListenerEvent::CleanupFailed | ListenerEvent::ReceiveFailed => ListenerAction::Wait,
        }
    }

    /// Takes each of these peers out of the table.
    fn forget(&mut self, dropped: &Vec<SocketAddr>)
        requires
            old(self).wf(),
        ensures
            final(self).wf(),
            final(self)@ == old(self)@.remove_keys(dropped@.to_set()),
    {
        assert(self@ =~= old(self)@.remove_keys(dropped@.take(0).to_set()));
        for i in 0..dropped.len()
            invariant
                self.wf(),
                self@ == old(self)@.remove_keys(dropped@.take(i as int).to_set()),
        {
            self.streams.remove(&dropped[i]);
            proof {
                let seen = dropped@.take(i as int);
                let now = dropped@.take(i + 1);
                assert(now =~= seen.push(dropped@[i as int]));
                assert forall|peer: SocketAddr| now.to_set().contains(peer) <==> (
                seen.to_set().contains(peer) || peer == dropped@[i as int]) by {
                    assert(now[i as int] == dropped@[i as int]);
                    if seen.contains(peer) {
                        let j = choose|j: int| 0 <= j < seen.len() && seen[j] == peer;
                        assert(now[j] == peer);
                    }
                    if now.contains(peer) {
                        let j = choose|j: int| 0 <= j < now.len() && now[j] == peer;
                        assert(j < i ==> seen[j] == peer);
                    }
                }
                assert(self@ =~= old(self)@.remove_keys(now.to_set()));
            }
        }
        assert(dropped@.take(dropped@.len() as int) =~= dropped@);
    }
}

/// The table of known peers after a run of events.
pub open spec fn peers_after_all<T>(
    peers: Map<SocketAddr, T>,
    events: Seq<ListenerEvent<T>>,
) -> Map<SocketAddr, T>
    decreases events.len(),
{
    if events.len() == 0 {
        peers
    } else {
        peers_after(peers_after_all(peers, events.drop_last()), events.last())
    }
}

/// The peer was admitted by the event at `at`, and by no later event forgotten.
pub open spec fn admitted_at<T>(
    events: Seq<ListenerEvent<T>>,
    peer: SocketAddr,
    at: int,
) -> bool {
    &&& 0 <= at < events.len()
    &&& events[at].admits(peer)
    &&& forall|later: int| at < later < events.len() ==> !(#[trigger] events[later]).forgets(peer)
}

/// An event changes what is known of the peers that it admits or forgets, and
/// of no other.
pub proof fn events_touch_only_their_peers<T>(
    peers: Map<SocketAddr, T>,
    event: ListenerEvent<T>,
    other: SocketAddr,
)
    requires
        !event.admits(other),
        !event.forgets(other),
    ensures
        peers_after(peers, event).dom().contains(other) == peers.dom().contains(other),
        peers.dom().contains(other) ==> peers_after(peers, event)[other] == peers[other],
{
}

/// A listener knows exactly the peers whose stream was handed on and that were
/// not forgotten since: because the stream was dropped, or because its channel
/// took a datagram no more.
pub proof fn known_peers_are_those_admitted_and_not_forgotten<T>(
    events: Seq<ListenerEvent<T>>,
    peer: SocketAddr,
)
    ensures
        peers_after_all(Map::<SocketAddr, T>::empty(), events).dom().contains(peer) <==> exists|
            at: int,
        |
            admitted_at(events, peer, at),
    decreases events.len(),
{
    let known = peers_after_all(Map::<SocketAddr, T>::empty(), events).dom().contains(peer);
    if events.len() > 0 {
        let before = events.drop_last();
        let last = events.last();
        let end = events.len() - 1;
        known_peers_are_those_admitted_and_not_forgotten(before, peer);
        if known {
            if last.admits(peer) {
                assert(admitted_at(events, peer, end));
            } else {
                let at = choose|at: int| admitted_at(before, peer, at);
                assert(admitted_at(before, peer, at));
                assert forall|later: int| at < later < events.len() implies !(
                #[trigger] events[later]).forgets(peer) by {
                    if later < end {
                        assert(!before[later].forgets(peer));
                    }
                }
                assert(before[at] == events[at]);
                assert(admitted_at(events, peer, at));
            }
        }
        if exists|at: int| admitted_at(events, peer, at) {
            let at = choose|at: int| admitted_at(events, peer, at);
            if at < end {
                assert(!events[end].forgets(peer));
                assert(before[at] == events[at]);
                assert forall|later: int| at < later < before.len() implies !(
                #[trigger] before[later]).forgets(peer) by {
                    assert(!events[later].forgets(peer));
                }
                assert(admitted_at(before, peer, at));
            }
        }
    }
}

/// A datagram of a known peer goes to the channel of its stream, and one of an
/// unknown peer opens a new stream; either way as it came.
pub proof fn datagrams_go_to_their_own_stream<T>(
    peers: Map<SocketAddr, T>,
    peer: SocketAddr,
    datagram: Bytes,
)
    ensures
        ({
            let event = ListenerEvent::<T>::Received { peer, datagram };
            &&& peers_after(peers, event) == peers
            &&& answer(peers, event) == (if peers.dom().contains(peer) {
                ListenerAction::<T>::Forward { peer, datagram }
            } else {
                ListenerAction::<T>::Open { peer, datagram }
            })
        }),
{
}

/// Once a new stream was handed on, the datagrams of its peer go to its channel.
pub proof fn admitted_peer_gets_its_datagrams<T>(
    peers: Map<SocketAddr, T>,
    peer: SocketAddr,
    sender: T,
    datagram: Bytes,
)
    ensures
        ({
            let after = peers_after(
                peers,
                ListenerEvent::Registered { peer, sender, sent: true },
            );
            &&& after[peer] == sender
            &&& answer(after, ListenerEvent::Received { peer, datagram })
                == ListenerAction::<T>::Forward { peer, datagram }
        }),
{
}

/// After a peer was forgotten, its next datagram opens a new stream.
pub proof fn forgotten_peer_starts_anew<T>(
    peers: Map<SocketAddr, T>,
    event: ListenerEvent<T>,
    peer: SocketAddr,
    datagram: Bytes,
)
    requires
        event.forgets(peer),
    ensures
        answer(peers_after(peers, event), (ListenerEvent::Received { peer, datagram }))
            == (ListenerAction::<T>::Open { peer, datagram }),
{
}

/// A listener whose streams are all alive: the known peers, what each channel was
/// handed, and the streams handed to those who accept, each as its peer and the
/// sending end of its channel; the oldest first.
pub struct Delivered<T> {
    pub peers: Map<SocketAddr, T>,
    pub channels: Map<SocketAddr, Seq<Bytes>>,
    pub announced: Seq<(SocketAddr, T)>,
}

impl<T> Delivered<T> {
    /// The listener after a datagram, where every channel takes what it is
    /// handed. `fresh` is the sending end of the channel made for a new peer.
    pub open spec fn after(self, peer: SocketAddr, datagram: Bytes, fresh: T) -> Delivered<T> {
        let received = ListenerEvent::Received { peer, datagram };
        let peers = peers_after(self.peers, received);
        match answer(self.peers, received) {
            ListenerAction::Forward { peer, datagram } => Delivered {
                peers: peers_after(peers, ListenerEvent::Forwarded { peer, sent: true }),
                channels: self.channels.insert(peer, self.channels[peer].push(datagram)),
                announced: self.announced,
            },
            ListenerAction::Open { peer, datagram } => {
                let seeded = ListenerEvent::Seeded { peer, sender: fresh, sent: true };
                match answer(peers, seeded) {
                    ListenerAction::Register { peer, sender } => Delivered {
                        peers: peers_after(
                            peers_after(peers, seeded),
                            ListenerEvent::Registered { peer, sender, sent: true },
                        ),
                        channels: self.channels.insert(peer, seq![datagram]),
                        announced: self.announced.push((peer, sender)),
                    },
                    _ => self,
                }
            },
            _ => self,
        }
    }

    /// The listener after a run of datagrams; the senders are the ones made for
    /// new peers.
    pub open spec fn after_all(
        datagrams: Seq<(SocketAddr, Bytes)>,
        fresh: spec_fn(int) -> T,
    ) -> Delivered<T>
        decreases datagrams.len(),
    {
        if datagrams.len() == 0 {
            Delivered { peers: Map::empty(), channels: Map::empty(), announced: Seq::empty() }
        } else {
            Delivered::<T>::after_all(datagrams.drop_last(), fresh).after(
                datagrams.last().0,
                datagrams.last().1,
                fresh(datagrams.len() as int),
            )
        }
    }
}

/// The datagrams that came from a peer, the oldest first.
pub open spec fn sent_by(datagrams: Seq<(SocketAddr, Bytes)>, peer: SocketAddr) -> Seq<Bytes>
    decreases datagrams.len(),
{
    if datagrams.len() == 0 {
        Seq::empty()
    } else if datagrams.last().0 == peer {
        sent_by(datagrams.drop_last(), peer).push(datagrams.last().1)
    } else {
        sent_by(datagrams.drop_last(), peer)
    }
}

/// Each stream gets the datagrams of its own peer, all of them, in the order in
/// which they came; the first one is what opened it.
pub proof fn each_stream_gets_the_datagrams_of_its_peer<T>(
    datagrams: Seq<(SocketAddr, Bytes)>,
    fresh: spec_fn(int) -> T,
    peer: SocketAddr,
)
    ensures
        ({
            let end = Delivered::<T>::after_all(datagrams, fresh);
            &&& end.peers.dom().contains(peer) <==> sent_by(datagrams, peer).len() > 0
            &&& end.channels.dom().contains(peer) <==> sent_by(datagrams, peer).len() > 0
            &&& end.channels.dom().contains(peer) ==> end.channels[peer] == sent_by(
                datagrams,
                peer,
            )
        }),
    decreases datagrams.len(),
{
    if datagrams.len() > 0 {
        each_stream_gets_the_datagrams_of_its_peer(datagrams.drop_last(), fresh, peer);
        let before = Delivered::<T>::after_all(datagrams.drop_last(), fresh);
        if datagrams.last().0 == peer && !before.peers.dom().contains(peer) {
            assert(sent_by(datagrams, peer) =~= seq![datagrams.last().1]);
        }
    }
}

/// The peers that datagrams came from, each once, in the order of the first
/// datagram of each.
pub open spec fn first_arrivals(datagrams: Seq<(SocketAddr, Bytes)>) -> Seq<SocketAddr>
    decreases datagrams.len(),
{
    if datagrams.len() == 0 {
        Seq::empty()
    } else {
        let before = first_arrivals(datagrams.drop_last());
        if before.contains(datagrams.last().0) {
            before
        } else {
            before.push(datagrams.last().0)
        }
    }
}

/// Those who accept get one stream per peer, in the order in which the peers
/// were first heard of, and each stream is on the channel that the later
/// datagrams of its peer go to.
pub proof fn each_peer_is_accepted_once_in_order_of_arrival<T>(
    datagrams: Seq<(SocketAddr, Bytes)>,
    fresh: spec_fn(int) -> T,
)
    ensures
        ({
            let end = Delivered::<T>::after_all(datagrams, fresh);
            &&& end.announced.map_values(|a: (SocketAddr, T)| a.0) == first_arrivals(datagrams)
            &&& first_arrivals(datagrams).no_duplicates()
            &&& forall|peer: SocketAddr| #[trigger]
                first_arrivals(datagrams).contains(peer) <==> end.peers.dom().contains(peer)
            &&& forall|i: int|
                0 <= i < end.announced.len() ==> end.peers[(#[trigger] end.announced[i]).0]
                    == end.announced[i].1
        }),
    decreases datagrams.len(),
{
    if datagrams.len() > 0 {
        let rest = datagrams.drop_last();
        let peer = datagrams.last().0;
        each_peer_is_accepted_once_in_order_of_arrival(rest, fresh);
        let before = Delivered::<T>::after_all(rest, fresh);
        let end = Delivered::<T>::after_all(datagrams, fresh);
        let firsts = first_arrivals(rest);
        let of = |a: (SocketAddr, T)| a.0;
        if !firsts.contains(peer) {
            assert(end.announced.map_values(of) =~= before.announced.map_values(of).push(peer));
            assert forall|p: SocketAddr| #[trigger]
                firsts.push(peer).contains(p) <==> firsts.contains(p) || p == peer by {
                assert(firsts.push(peer)[firsts.len() as int] == peer);
                if firsts.contains(p) {
                    let i = choose|i: int| 0 <= i < firsts.len() && firsts[i] == p;
                    assert(firsts.push(peer)[i] == p);
                }
            }
            assert forall|i: int| 0 <= i < before.announced.len() implies (
            #[trigger] before.announced[i]).0 != peer by {
                assert(before.announced.map_values(of)[i] == before.announced[i].0);
                assert(firsts.contains(firsts[i]));
            }
            assert forall|i: int| 0 <= i < end.announced.len() implies end.peers[(
            #[trigger] end.announced[i]).0] == end.announced[i].1 by {
                if i < before.announced.len() {
                    assert(end.announced[i] == before.announced[i]);
                }
            }
        }
    } else {
        let end = Delivered::<T>::after_all(datagrams, fresh);
        assert(end.announced.map_values(|a: (SocketAddr, T)| a.0) =~= Seq::empty());
    }
}

/// The bytes of each of these datagrams.
pub open spec fn contents(datagrams: Seq<Bytes>) -> Seq<Seq<u8>> {
    datagrams.map_values(|datagram: Bytes| bytes_of(datagram))
}

/// However an accepted stream is read while datagrams come in, its reader gets
/// the bytes that its peer sent, in order and no others; and where it only asks
/// for whole datagrams, it gets the very datagrams that its peer sent.
pub proof fn accepted_stream_reads_what_its_peer_sent<T>(
    datagrams: Seq<(SocketAddr, Bytes)>,
    fresh: spec_fn(int) -> T,
    peer: SocketAddr,
    steps: Seq<Step>,
)
    requires
        Delivered::<T>::after_all(datagrams, fresh).channels.dom().contains(peer),
        arrivals(steps) == contents(Delivered::<T>::after_all(datagrams, fresh).channels[peer]),
    ensures
        joined(Inbox::empty().handed_out(steps)) + Inbox::empty().after_steps(steps).unread()
            == joined(contents(sent_by(datagrams, peer))),
        only_receives(steps) ==> Inbox::empty().handed_out(steps) + Inbox::empty().after_steps(
            steps,
        ).waiting == contents(sent_by(datagrams, peer)),
{
    each_stream_gets_the_datagrams_of_its_peer(datagrams, fresh, peer);
    new_stream_hands_out_what_comes_in(steps);
}

/// A bound listener.
#[derive(Debug)]
pub struct UdpListener {
    pub local_addr: SocketAddr,
}

impl UdpListener {
    /// Returns the local address that this socket is bound to.
    pub fn local_addr(&self) -> (addr: Result<SocketAddr, NetError>)
        ensures
            addr == Ok::<SocketAddr, NetError>(self.local_addr),
    {
        Ok(self.local_addr)
    }

    /// Accepts what the channel of new streams answered: a stream and its peer,
    /// or a broken pipe caused by the channel's error.
    pub fn accept<S, E>(&self, received: Result<(S, SocketAddr), E>) -> (accepted: Result<
        (S, SocketAddr),
        Failure<E>,
    >)
        ensures
            accepted == (match received {
                Ok(stream) => Ok::<(S, SocketAddr), Failure<E>>(stream),
                Err(cause) => Err(Failure::Caused { kind: ErrorKind::BrokenPipe, cause }),
            }),
    {
        match received {
            Ok(stream) => Ok(stream),
            Err(cause) => Err(Failure::Caused { kind: ErrorKind::BrokenPipe, cause }),
        }
    }
}

/// When streams are dropped, each of their peers is forgotten, however many they
/// are, and what is known of any other peer stays. The next datagram of a
/// forgotten peer opens a new stream, and that of a peer still known goes to its
/// stream.
pub proof fn dropped_streams_are_forgotten_and_no_others<T>(
    peers: Map<SocketAddr, T>,
    dropped: Vec<SocketAddr>,
    peer: SocketAddr,
    datagram: Bytes,
)
    ensures
        ({
            let after = peers_after(peers, ListenerEvent::Cleanup(dropped));
            let next = answer(after, ListenerEvent::Received { peer, datagram });
            &&& dropped@.contains(peer) ==> !after.dom().contains(peer)
            &&& dropped@.contains(peer) ==> next == (ListenerAction::<T>::Open { peer, datagram })
            &&& !dropped@.contains(peer) ==> after.dom().contains(peer) == peers.dom().contains(
                peer,
            )
            &&& !dropped@.contains(peer) && peers.dom().contains(peer) ==> {
                &&& after[peer] == peers[peer]
                &&& next == (ListenerAction::<T>::Forward { peer, datagram })
            }
            &&& answer(peers, ListenerEvent::Cleanup(dropped)) is Wait
        }),
{
}

/// A channel that takes no more datagrams costs its own peer the stream, and no
/// other; one that took a datagram changes nothing.
pub proof fn a_closed_channel_forgets_its_peer_alone<T>(
    peers: Map<SocketAddr, T>,
    peer: SocketAddr,
    other: SocketAddr,
)
    ensures
        ({
            let closed = peers_after(peers, ListenerEvent::Forwarded { peer, sent: false });
            &&& !closed.dom().contains(peer)
            &&& other != peer ==> closed.dom().contains(other) == peers.dom().contains(other)
            &&& other != peer && peers.dom().contains(other) ==> closed[other] == peers[other]
            &&& peers_after(peers, ListenerEvent::Forwarded { peer, sent: true }) == peers
            &&& answer(peers, ListenerEvent::Forwarded { peer, sent: false }) is Wait
            &&& answer(peers, ListenerEvent::Forwarded { peer, sent: true }) is Wait
        }),
{
}

/// A stream that was handed on makes its peer known, with the sending end of its
/// own channel, and touches no other peer; one that was not taken changes nothing.
pub proof fn a_handed_on_stream_makes_its_peer_known<T>(
    peers: Map<SocketAddr, T>,
    peer: SocketAddr,
    sender: T,
    other: SocketAddr,
)
    ensures
        ({
            let taken = ListenerEvent::Registered { peer, sender, sent: true };
            let refused = ListenerEvent::Registered { peer, sender, sent: false };
            let after = peers_after(peers, taken);
            &&& after.dom().contains(peer) && after[peer] == sender
            &&& other != peer ==> after.dom().contains(other) == peers.dom().contains(other)
            &&& other != peer && peers.dom().contains(other) ==> after[other] == peers[other]
            &&& peers_after(peers, refused) == peers
            &&& answer(peers, taken) is Wait
            &&& answer(peers, refused) is Wait
        }),
{
}

/// A new stream is handed on where its channel took the first datagram, and only
/// there; that and the failures of the socket leave the known peers alone.
pub proof fn a_seeded_stream_is_handed_on<T>(
    peers: Map<SocketAddr, T>,
    peer: SocketAddr,
    sender: T,
)
    ensures
        ({
            let seeded = ListenerEvent::Seeded { peer, sender, sent: true };
            let refused = ListenerEvent::Seeded { peer, sender, sent: false };
            &&& answer(peers, seeded) == (ListenerAction::Register { peer, sender })
            &&& answer(peers, refused) is Wait
            &&& peers_after(peers, seeded) == peers
            &&& peers_after(peers, refused) == peers
            &&& answer(peers, ListenerEvent::ReceiveFailed) is Wait
            &&& answer(peers, ListenerEvent::CleanupFailed) is Wait
            &&& peers_after(peers, ListenerEvent::ReceiveFailed) == peers
            &&& peers_after(peers, ListenerEvent::CleanupFailed) == peers
        }),
{
}

/// Which events admit a peer and which forget it, event by event.
pub proof fn events_that_admit_and_forget<T>(
    dropped: Vec<SocketAddr>,
    peer: SocketAddr,
    other: SocketAddr,
    sender: T,
    sent: bool,
    datagram: Bytes,
)
    ensures
        ListenerEvent::<T>::Cleanup(dropped).forgets(other) <==> dropped@.contains(other),
        (ListenerEvent::<T>::Forwarded { peer, sent }).forgets(other) <==> !sent && peer == other,
        (ListenerEvent::Registered { peer, sender, sent }).admits(other) <==> sent && peer == other,
        !(ListenerEvent::Registered { peer, sender, sent }).forgets(other),
        !(ListenerEvent::<T>::Received { peer, datagram }).forgets(other),
        !(ListenerEvent::Seeded { peer, sender, sent }).forgets(other),
        !ListenerEvent::<T>::CleanupFailed.forgets(other),
        !ListenerEvent::<T>::ReceiveFailed.forgets(other),
        !ListenerEvent::<T>::Cleanup(dropped).admits(other),
        !(ListenerEvent::<T>::Forwarded { peer, sent }).admits(other),
        !(ListenerEvent::<T>::Received { peer, datagram }).admits(other),
        !(ListenerEvent::Seeded { peer, sender, sent }).admits(other),
{
}

/// How much waits in the channels of a listener before a sender has to.
pub proof fn channels_hold_so_much()
    ensures
        UDP_CHANNEL_LEN == 100,
        UDP_CLEANUP_LEN == 10,
{
}

} // verus!
