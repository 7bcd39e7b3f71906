//! UDP streams: a connected or accepted peer, its read side and its write side.

use crate::datagram::{buffer_len, buffered, bytes_clone, bytes_of, take_datagram};
use crate::delivery::{
    arrivals, joined, new_stream_hands_out_what_comes_in, only_receives, Inbox, Step,
};
use crate::error::{ErrorKind, NetError};
use crate::net::{unspecified_for, IpAddr, Ipv4Addr, Ipv6Addr, SocketAddr};
use crate::read::{leftover, leftover_wf, receive_step, recv_datagram, ReceiveStep};
use crate::timeout::Duration;
use bytes::{Bytes, BytesMut};
use std::sync::Arc;
use vstd::prelude::*;

verus! {

/// The bytes that the system is asked to buffer for a UDP socket, each way.
pub const UDP_SOCKET_BUFFER_BYTES: usize = 4 * 1024 * 1024;

/// The handles that a runtime gives to a UDP stream. A stream carries them and
/// never looks inside.
pub trait Transport: 'static {
    /// The socket.
    type Socket: 'static;

    /// The receiving end of the channel of the stream.
    type Receiver;

    /// The datagrams of that channel, as they come in.
    type Incoming;

    /// The idle timer.
    type Timer;

    /// Ends the task that receives for a connected stream.
    type HandlerGuard;

    /// Tells the listener that an accepted stream is gone.
    type ListenerGuard;
}

/// What every stream is made from.
pub struct StreamParts<P: Transport> {
    pub local_addr: SocketAddr,
    pub peer_addr: SocketAddr,
    pub socket: P::Socket,
    pub receiver: P::Receiver,
    pub recv_stream: P::Incoming,
    pub timeout: P::Timer,
}

/// A UDP stream connected to a remote endpoint, or accepted from a listener.
pub struct UdpStream<P: Transport> {
    /// Whether the socket itself is connected to the peer.
    pub is_connect: bool,
    pub local_addr: SocketAddr,
    pub peer_addr: SocketAddr,
    pub socket: P::Socket,
    pub receiver: P::Receiver,
    pub timeout: P::Timer,
    pub recv_stream: P::Incoming,
    /// The rest of a datagram that was read in part.
    pub remaining: Option<Bytes>,
    pub handler_guard: Option<P::HandlerGuard>,
    pub listener_guard: Option<P::ListenerGuard>,
}

/// What keeps an owned pair of halves alive; both hold it.
pub struct UdpStreamGuard<P: Transport> {
    pub handler_guard: Option<P::HandlerGuard>,
    pub listener_guard: Option<P::ListenerGuard>,
}

/// Read side of a [`UdpStream`].
pub struct UdpStreamReadHalf<P: Transport> {
    pub recv_stream: P::Incoming,
    pub remaining: Option<Bytes>,
    pub timeout: P::Timer,
}

/// Write side of a [`UdpStream`], on its socket.
pub struct UdpStreamWriteHalf<'a, P: Transport> {
    pub is_connect: bool,
    pub socket: &'a P::Socket,
    pub peer_addr: SocketAddr,
}

/// Owned read side of a [`UdpStream`].
pub struct UdpStreamOwnedReadHalf<P: Transport> {
    pub recv_stream: P::Incoming,
    pub remaining: Option<Bytes>,
    pub timeout: P::Timer,
    pub guard: Arc<UdpStreamGuard<P>>,
}

/// Owned write side of a [`UdpStream`].
pub struct UdpStreamOwnedWriteHalf<P: Transport> {
    pub is_connect: bool,
    pub socket: P::Socket,
    pub peer_addr: SocketAddr,
    pub guard: Arc<UdpStreamGuard<P>>,
}

/// Where the socket sends a datagram to.
#[derive(Clone, Copy, Debug, PartialEq, Eq, Structural)]
pub enum SendTarget {
    /// To the peer that the socket is connected to.
    Connected,
    /// To this address.
    To(SocketAddr),
}

/// A connected socket sends to its peer by itself; any other is told the peer.
pub open spec fn send_target(is_connect: bool, peer: SocketAddr) -> SendTarget {
    if is_connect {
        SendTarget::Connected
    } else {
        SendTarget::To(peer)
    }
}

/// Where the bytes of a write, or a datagram, are sent to.
pub fn poll_write(is_connect: bool, peer: &SocketAddr) -> (target: SendTarget)
    ensures
        target == send_target(is_connect, *peer),
        target is Connected <==> is_connect,
        !is_connect ==> target == SendTarget::To(*peer),
{
    if is_connect {
        SendTarget::Connected
    } else {
        SendTarget::To(*peer)
    }
}

/// Ends the sending of a datagram of `len` bytes of which the socket took
/// `sent`: only a whole datagram counts.
pub fn finish_send(sent: usize, len: usize) -> (done: Result<(), NetError>)
    ensures
        match done {
            Ok(()) => sent == len,
            Err(e) => sent != len && e.says(ErrorKind::WriteZero, "udp datagram truncated"@),
        },
{
    if sent != len {
        return Err(NetError::new(ErrorKind::WriteZero, "udp datagram truncated"));
    }
    Ok(())
}

impl<P: Transport> UdpStream<P> {
    /// A part of a datagram is only left over where some of it still has to be
    /// read.
    pub open spec fn wf(self) -> bool {
        leftover_wf(self.remaining)
    }

    /// A stream on a socket of its own, whose receiving task the guard ends.
    pub fn from_socket(
        parts: StreamParts<P>,
        is_connect: bool,
        handler_guard: P::HandlerGuard,
    ) -> (stream: UdpStream<P>)
        ensures
            stream == (UdpStream::<P> {
                is_connect,
                local_addr: parts.local_addr,
                peer_addr: parts.peer_addr,
                socket: parts.socket,
                receiver: parts.receiver,
                timeout: parts.timeout,
                recv_stream: parts.recv_stream,
                remaining: None,
                handler_guard: Some(handler_guard),
                listener_guard: None,
            }),
            stream.wf(),
    {
        UdpStream {
            is_connect,
            local_addr: parts.local_addr,
            peer_addr: parts.peer_addr,
            socket: parts.socket,
            receiver: parts.receiver,
            timeout: parts.timeout,
            recv_stream: parts.recv_stream,
            remaining: None,
            handler_guard: Some(handler_guard),
            listener_guard: None,
        }
    }

    /// A stream on the socket of a listener, which the guard tells when the
    /// stream is gone.
    pub fn accepted(parts: StreamParts<P>, listener_guard: P::ListenerGuard) -> (stream: UdpStream<
        P,
    >)
        ensures
            stream == (UdpStream::<P> {
                is_connect: false,
                local_addr: parts.local_addr,
                peer_addr: parts.peer_addr,
                socket: parts.socket,
                receiver: parts.receiver,
                timeout: parts.timeout,
                recv_stream: parts.recv_stream,
                remaining: None,
                handler_guard: None,
                listener_guard: Some(listener_guard),
            }),
            stream.wf(),
    {
        UdpStream {
            is_connect: false,
            local_addr: parts.local_addr,
            peer_addr: parts.peer_addr,
            socket: parts.socket,
            receiver: parts.receiver,
            timeout: parts.timeout,
            recv_stream: parts.recv_stream,
            remaining: None,
            handler_guard: None,
            listener_guard: Some(listener_guard),
        }
    }

    /// Returns the peer address.
    pub fn peer_addr(&self) -> (addr: Result<SocketAddr, NetError>)
        ensures
            addr == Ok::<SocketAddr, NetError>(self.peer_addr),
    {
        Ok(self.peer_addr)
    }

    /// Returns the local address.
    pub fn local_addr(&self) -> (addr: Result<SocketAddr, NetError>)
        ensures
            addr == Ok::<SocketAddr, NetError>(self.local_addr),
    {
        Ok(self.local_addr)
    }

    /// Splits into a read side and a write side without giving the stream up.
    /// The read side gets a fresh view of the channel and a fresh timer, and
    /// starts with what the stream had left over; the stream keeps that too.
    pub fn split(&self, recv_stream: P::Incoming, timeout: P::Timer) -> (halves: (
        UdpStreamReadHalf<P>,
        UdpStreamWriteHalf<'_, P>,
    ))
        ensures
            halves.0.recv_stream == recv_stream,
            halves.0.timeout == timeout,
            leftover(halves.0.remaining) == leftover(self.remaining),
            halves.0.remaining is Some <==> self.remaining is Some,
            self.remaining is Some ==> bytes_of(halves.0.remaining->0) == bytes_of(
                self.remaining->0,
            ),
            self.wf() ==> leftover_wf(halves.0.remaining),
            halves.1.is_connect == self.is_connect,
            *halves.1.socket == self.socket,
            halves.1.peer_addr == self.peer_addr,
    {
        let remaining = match &self.remaining {
            Some(rest) => Some(bytes_clone(rest)),
            None => None,
        };
        (
            UdpStreamReadHalf { recv_stream, remaining, timeout },
            UdpStreamWriteHalf {
                is_connect: self.is_connect,
                socket: &self.socket,
                peer_addr: self.peer_addr,
            },
        )
    }

    /// Splits into owned halves. The read side goes on with the channel, the
    /// timer and the left over bytes of the stream; both sides hold what keeps
    /// the stream alive.
    pub fn into_split(self) -> (halves: (UdpStreamOwnedReadHalf<P>, UdpStreamOwnedWriteHalf<P>))
        ensures
            halves.0.recv_stream == self.recv_stream,
            halves.0.remaining == self.remaining,
            halves.0.timeout == self.timeout,
            halves.1.is_connect == self.is_connect,
            halves.1.socket == self.socket,
            halves.1.peer_addr == self.peer_addr,
            halves.0.guard == halves.1.guard,
            halves.0.guard.handler_guard == self.handler_guard,
            halves.0.guard.listener_guard == self.listener_guard,
    {
        let guard = Arc::new(
            UdpStreamGuard {
                handler_guard: self.handler_guard,
                listener_guard: self.listener_guard,
            },
        );
        (
            UdpStreamOwnedReadHalf {
                recv_stream: self.recv_stream,
                remaining: self.remaining,
                timeout: self.timeout,
                guard: guard.clone(),
            },
            UdpStreamOwnedWriteHalf {
                is_connect: self.is_connect,
                socket: self.socket,
                peer_addr: self.peer_addr,
                guard,
            },
        )
    }

    /// Where a datagram to the peer is sent to; [`finish_send`] ends the call.
    pub fn send_datagram(&self) -> (target: SendTarget)
        ensures
            target == send_target(self.is_connect, self.peer_addr),
            target is Connected <==> self.is_connect,
            !self.is_connect ==> target == SendTarget::To(self.peer_addr),
    {
        poll_write(self.is_connect, &self.peer_addr)
    }
}

impl<P: Transport> UdpStreamReadHalf<P> {
    /// Begins to receive exactly one datagram; see [`crate::read::recv_datagram`].
    pub fn recv_datagram(&self, timer_fired: bool, timeout: &Duration) -> (step: ReceiveStep)
        ensures
            receive_step(step, self.remaining, timer_fired, timeout@),
            step !is Received,
            step is AwaitDatagram <==> self.remaining is None && !timer_fired,
            step matches ReceiveStep::Fail(e) ==> e.kind == (if self.remaining is Some {
                ErrorKind::InvalidData
            } else {
                ErrorKind::TimedOut
            }),
    {
        recv_datagram(&self.remaining, timer_fired, timeout)
    }
}

impl<P: Transport> UdpStreamOwnedReadHalf<P> {
    /// Begins to receive exactly one datagram; see [`crate::read::recv_datagram`].
    pub fn recv_datagram(&self, timer_fired: bool, timeout: &Duration) -> (step: ReceiveStep)
        ensures
            receive_step(step, self.remaining, timer_fired, timeout@),
            step !is Received,
            step is AwaitDatagram <==> self.remaining is None && !timer_fired,
            step matches ReceiveStep::Fail(e) ==> e.kind == (if self.remaining is Some {
                ErrorKind::InvalidData
            } else {
                ErrorKind::TimedOut
            }),
    {
        recv_datagram(&self.remaining, timer_fired, timeout)
    }
}

impl<P: Transport> UdpStreamWriteHalf<'_, P> {
    /// Where a datagram to the peer is sent to; [`finish_send`] ends the call.
    pub fn send_datagram(&self) -> (target: SendTarget)
        ensures
            target == send_target(self.is_connect, self.peer_addr),
            target is Connected <==> self.is_connect,
            !self.is_connect ==> target == SendTarget::To(self.peer_addr),
    {
        poll_write(self.is_connect, &self.peer_addr)
    }
}

impl<P: Transport> UdpStreamOwnedWriteHalf<P> {
    /// Where a datagram to the peer is sent to; [`finish_send`] ends the call.
    pub fn send_datagram(&self) -> (target: SendTarget)
        ensures
            target == send_target(self.is_connect, self.peer_addr),
            target is Connected <==> self.is_connect,
            !self.is_connect ==> target == SendTarget::To(self.peer_addr),
    {
        poll_write(self.is_connect, &self.peer_addr)
    }
}

/// The local address to bind a socket to that is to be connected to `peer`.
pub fn local_addr_for(peer: &SocketAddr) -> (local: SocketAddr)
    ensures
        local == unspecified_for(*peer),
        match *peer {
            SocketAddr::V4(_) => local matches SocketAddr::V4(a) && a.ip.bits == 0 && a.port == 0,
            SocketAddr::V6(_) => local matches SocketAddr::V6(a) && a.ip.bits == 0 && a.port == 0
                && a.flowinfo == 0 && a.scope_id == 0,
        },
{
    if peer.is_ipv4() {
        SocketAddr::new(IpAddr::V4(Ipv4Addr { bits: 0 }), 0)
    } else {
        SocketAddr::new(IpAddr::V6(Ipv6Addr { bits: 0 }), 0)
    }
}

/// What happened to the task that receives for a connected stream.
#[derive(Clone, Copy, Debug)]
pub enum PumpEvent {
    /// The socket failed to receive.
    ReceiveFailed,
    /// A datagram of `len` bytes came in, to the front of the buffer.
    Received { len: usize, from: SocketAddr },
    /// A datagram was handed to the channel of the stream, which took it or not.
    Delivered { sent: bool },
}

/// What that task does next.
#[derive(Debug)]
pub enum PumpAction {
    /// End.
    Stop,
    /// Receive the next datagram.
    Receive,
    /// Hand the datagram to the channel of the stream.
    Deliver(Bytes),
}

/// What the stream connected to `peer` is handed of a datagram.
pub open spec fn handed_on(peer: SocketAddr, from: SocketAddr, data: Seq<u8>) -> Option<Seq<u8>> {
    if from == peer {
        Some(data)
    } else {
        None
    }
}

/// The event can be answered: a datagram of the peer is in the buffer as a whole.
pub open spec fn can_pump(peer: SocketAddr, event: PumpEvent, held: nat) -> bool {
    event matches PumpEvent::Received { len, from } ==> from == peer ==> len <= held
}

/// The right answer to an event: the end where the socket or the channel failed,
/// a datagram of the peer for the channel, and otherwise the next datagram.
pub open spec fn pumps(
    peer: SocketAddr,
    event: PumpEvent,
    before: Seq<u8>,
    action: PumpAction,
    after: Seq<u8>,
) -> bool {
    match event {
        PumpEvent::ReceiveFailed => action is Stop && after == before,
        PumpEvent::Received { len, from } => match handed_on(peer, from, before.take(len as int)) {
            Some(data) => {
                &&& action matches PumpAction::Deliver(datagram)
                &&& bytes_of(datagram) == data
                &&& after == before.skip(len as int)
            },
            None => action is Receive && after == before,
        },
        PumpEvent::Delivered { sent } => {
            &&& if sent {
                action is Receive
            } else {
                action is Stop
            }
            &&& after == before
        },
    }
}

/// Decides what the task that receives for a stream connected to `peer` does
/// next. A datagram of anybody else is passed over.
pub fn pump(peer: &SocketAddr, event: PumpEvent, buf: &mut BytesMut) -> (action: PumpAction)
    requires
        can_pump(*peer, event, buffered(*old(buf)).len()),
    ensures
        pumps(*peer, event, buffered(*old(buf)), action, buffered(*final(buf))),
        match event {
            PumpEvent::ReceiveFailed => action is Stop,
            PumpEvent::Received { len, from } => if from == *peer {
                &&& action matches PumpAction::Deliver(datagram)
                &&& bytes_of(datagram).len() == len
                &&& bytes_of(datagram) + buffered(*final(buf)) == buffered(*old(buf))
            } else {
                action is Receive && buffered(*final(buf)) == buffered(*old(buf))
            },
            PumpEvent::Delivered { sent } => {
                &&& sent ==> action is Receive
                &&& !sent ==> action is Stop
            },
        },
{
    match event {
        PumpEvent::ReceiveFailed => PumpAction::Stop,
        PumpEvent::Received { len, from } => if from != *peer {
            PumpAction::Receive
        } else {
            proof {
                let held = buffered(*buf);
                assert(held.take(len as int) + held.skip(len as int) =~= held);
            }
            PumpAction::Deliver(take_datagram(buf, len))
        },
        PumpEvent::Delivered { sent } => if sent {
            PumpAction::Receive
        } else {
            PumpAction::Stop
        },
    }
}

/// As [`pump`], or nothing where a datagram of the peer is said to be longer than
/// what the buffer holds.
pub fn try_pump(peer: &SocketAddr, event: PumpEvent, buf: &mut BytesMut) -> (action: Option<
    PumpAction,
>)
    ensures
        match action {
            Some(action) => {
                &&& can_pump(*peer, event, buffered(*old(buf)).len())
                &&& pumps(*peer, event, buffered(*old(buf)), action, buffered(*final(buf)))
            },
            None => !can_pump(*peer, event, buffered(*old(buf)).len()) && *final(buf) == *old(buf),
        },
        action is None <==> (event is Received && event->from == *peer && event->len > buffered(
            *old(buf),
        ).len()),
        action is Some && event is Received && event->from == *peer ==> {
            &&& action->0 matches PumpAction::Deliver(datagram)
            &&& bytes_of(datagram).len() == event->len
            &&& bytes_of(datagram) + buffered(*final(buf)) == buffered(*old(buf))
        },
        event is Received && event->from != *peer ==> action == Some(PumpAction::Receive),
{
    if let PumpEvent::Received { len, from } = event {
        if from == *peer && len > buffer_len(buf) {
            return None;
        }
    }
    Some(pump(peer, event, buf))
}

/// The local address of a connecting socket is of the family of its peer, has no
/// address of its own and leaves the port to the system.
pub proof fn connecting_socket_has_the_family_of_its_peer(peer: SocketAddr)
    ensures
        unspecified_for(peer) is V4 <==> peer is V4,
        unspecified_for(peer) matches SocketAddr::V4(a) ==> a.ip.bits == 0 && a.port == 0,
        unspecified_for(peer) matches SocketAddr::V6(a) ==> a.ip.bits == 0 && a.port == 0
            && a.flowinfo == 0 && a.scope_id == 0,
{
}

/// What the stream connected to `peer` is handed of a run of datagrams, each with
/// its sender.
pub open spec fn all_handed_on(peer: SocketAddr, datagrams: Seq<(SocketAddr, Seq<u8>)>) -> Seq<
    Seq<u8>,
>
    decreases datagrams.len(),
{
    if datagrams.len() == 0 {
        Seq::empty()
    } else {
        let before = all_handed_on(peer, datagrams.drop_last());
        match handed_on(peer, datagrams.last().0, datagrams.last().1) {
            Some(data) => before.push(data),
            None => before,
        }
    }
}

/// A connected stream hears its peer alone: it is handed the datagrams of the
/// peer, all of them, in order, and no other.
pub proof fn connected_stream_hears_only_its_peer(
    peer: SocketAddr,
    datagrams: Seq<(SocketAddr, Seq<u8>)>,
)
    ensures
        all_handed_on(peer, datagrams) == datagrams.filter(
            |d: (SocketAddr, Seq<u8>)| d.0 == peer,
        ).map_values(|d: (SocketAddr, Seq<u8>)| d.1),
    decreases datagrams.len(),
{
    reveal(Seq::filter);
    let of_peer = |d: (SocketAddr, Seq<u8>)| d.0 == peer;
    let data = |d: (SocketAddr, Seq<u8>)| d.1;
    if datagrams.len() > 0 {
        connected_stream_hears_only_its_peer(peer, datagrams.drop_last());
        assert(all_handed_on(peer, datagrams) =~= datagrams.filter(of_peer).map_values(data));
    }
}

/// However a connected stream is read while datagrams come in, its reader gets
/// the bytes that its peer sent, in order and no others; and where it only asks
/// for whole datagrams, it gets the very datagrams that its peer sent.
pub proof fn connected_stream_reads_what_its_peer_sent(
    peer: SocketAddr,
    datagrams: Seq<(SocketAddr, Seq<u8>)>,
    steps: Seq<Step>,
)
    requires
        arrivals(steps) == all_handed_on(peer, datagrams),
    ensures
        ({
            let sent = datagrams.filter(|d: (SocketAddr, Seq<u8>)| d.0 == peer).map_values(
                |d: (SocketAddr, Seq<u8>)| d.1,
            );
            let handed_out = Inbox::empty().handed_out(steps);
            let end = Inbox::empty().after_steps(steps);
            &&& joined(handed_out) + end.unread() == joined(sent)
            &&& only_receives(steps) ==> handed_out + end.waiting == sent
        }),
{
    connected_stream_hears_only_its_peer(peer, datagrams);
    new_stream_hands_out_what_comes_in(steps);
}

/// A stream that is not connected names its peer, of either family, whenever it
/// sends; only a connected one leaves that to the socket. So no two peers of a
/// listener are sent to alike.
pub proof fn datagrams_are_sent_to_the_peer(peer: SocketAddr, other: SocketAddr, is_connect: bool)
    ensures
        send_target(false, peer) == SendTarget::To(peer),
        send_target(true, peer) is Connected,
        send_target(is_connect, peer) is Connected <==> is_connect,
        send_target(false, peer) == send_target(false, other) ==> peer == other,
{
}

/// A datagram of the peer is handed on whole, all its bytes and no others, and
/// only what lies behind it stays in the buffer. A datagram of anybody else is
/// passed over.
pub proof fn the_peer_is_heard_byte_for_byte(
    peer: SocketAddr,
    from: SocketAddr,
    len: usize,
    before: Seq<u8>,
    action: PumpAction,
    after: Seq<u8>,
)
    requires
        len <= before.len(),
        pumps(peer, (PumpEvent::Received { len, from }), before, action, after),
    ensures
        from == peer ==> {
            &&& action matches PumpAction::Deliver(datagram)
            &&& bytes_of(datagram).len() == len
            &&& forall|i: int| 0 <= i < len ==> #[trigger] bytes_of(datagram)[i] == before[i]
            &&& bytes_of(datagram) + after == before
        },
        from != peer ==> action is Receive && after == before,
{
    assert(before.take(len as int) + before.skip(len as int) =~= before);
}

/// The receiving task goes on until the socket fails or the channel is closed, and
/// it can answer every event but a datagram of the peer that the buffer does not
/// hold.
pub proof fn the_receiving_task_goes_on_until_it_fails(
    peer: SocketAddr,
    event: PumpEvent,
    before: Seq<u8>,
    action: PumpAction,
    after: Seq<u8>,
)
    ensures
        can_pump(peer, event, before.len()) <==> !(event is Received && event->from == peer
            && event->len > before.len()),
        pumps(peer, event, before, action, after) ==> {
            &&& action is Stop <==> event is ReceiveFailed || (event is Delivered && !event->sent)
            &&& event !is Received ==> after == before
            &&& event is Delivered && event->sent ==> action is Receive
        },
{
}

/// What a run of answers hands to the channel.
pub open spec fn delivered(actions: Seq<PumpAction>) -> Seq<Seq<u8>>
    decreases actions.len(),
{
    if actions.len() == 0 {
        Seq::empty()
    } else {
        match actions.last() {
            PumpAction::Deliver(datagram) => delivered(actions.drop_last()).push(
                bytes_of(datagram),
            ),
            _ => delivered(actions.drop_last()),
        }
    }
}

/// The receiving task may answer so to a datagram that is alone in the buffer.
pub open spec fn answers_to(
    peer: SocketAddr,
    datagram: (SocketAddr, Seq<u8>),
    action: PumpAction,
) -> bool {
    exists|len: usize, after: Seq<u8>|
        len == datagram.1.len() && #[trigger] pumps(
            peer,
            (PumpEvent::Received { len, from: datagram.0 }),
            datagram.1,
            action,
            after,
        )
}

/// Over a run of datagrams, each alone in the buffer, the receiving task hands the
/// channel exactly those of the peer, whole and in order.
pub proof fn the_receiving_task_hands_on_its_peer(
    peer: SocketAddr,
    datagrams: Seq<(SocketAddr, Seq<u8>)>,
    actions: Seq<PumpAction>,
)
    requires
        actions.len() == datagrams.len(),
        forall|i: int|
            0 <= i < datagrams.len() ==> answers_to(peer, datagrams[i], #[trigger] actions[i]),
    ensures
        delivered(actions) == datagrams.filter(
            |d: (SocketAddr, Seq<u8>)| d.0 == peer,
        ).map_values(|d: (SocketAddr, Seq<u8>)| d.1),
        delivered(actions) == all_handed_on(peer, datagrams),
    decreases datagrams.len(),
{
    connected_stream_hears_only_its_peer(peer, datagrams);
    if datagrams.len() > 0 {
        let rest = datagrams.drop_last();
        let before = actions.drop_last();
        assert forall|i: int| 0 <= i < rest.len() implies answers_to(
            peer,
            rest[i],
            #[trigger] before[i],
        ) by {
            assert(before[i] == actions[i]);
            assert(rest[i] == datagrams[i]);
        }
        the_receiving_task_hands_on_its_peer(peer, rest, before);
        let last = datagrams.last();
        assert(answers_to(peer, last, actions[datagrams.len() - 1]));
        assert(last.1.take(last.1.len() as int) =~= last.1);
    }
}

/// A UDP socket buffers four mebibytes each way.
pub proof fn sockets_buffer_so_much()
    ensures
        UDP_SOCKET_BUFFER_BYTES == 4_194_304,
{
}

} // verus!
