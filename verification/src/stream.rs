//! What TCP and UDP streams have in common.

use crate::addr::{no_addresses, OneOrMore};
use crate::datagram::bytes_of;
use crate::error::{ErrorKind, Failure, NetError};
use crate::net::{unspecified_for, SocketAddr};
use crate::read::leftover;
use crate::udp::{
    local_addr_for, Transport, UdpStream, UdpStreamOwnedReadHalf, UdpStreamOwnedWriteHalf,
    UdpStreamReadHalf, UdpStreamWriteHalf,
};
use socket2::TcpKeepalive;
use vstd::prelude::*;

verus! {

/// A stream that can be split into read and write halves.
pub trait StreamSplit: Sized {
    /// Reader half type.
    type ReaderRef<'a> where Self: 'a;

    /// Writer half type.
    type WriterRef<'a> where Self: 'a;

    /// Owned reader half type.
    type ReaderOwned;

    /// Owned writer half type.
    type WriterOwned;

    /// The handles that a borrowed reader half gets of its own.
    type Fresh;

    /// The stream, with these handles, lends these halves.
    spec fn lends<'a>(
        &'a self,
        fresh: Self::Fresh,
        reader: Self::ReaderRef<'a>,
        writer: Self::WriterRef<'a>,
    ) -> bool;

    /// Splits into reader and writer halves, without giving the stream up.
    fn split<'a>(&'a mut self, fresh: Self::Fresh) -> (halves: (
        Self::ReaderRef<'a>,
        Self::WriterRef<'a>,
    ))
        ensures
            old(self).lends(fresh, halves.0, halves.1),
    ;

    /// These halves make up the stream.
    spec fn splits_into(self, reader: Self::ReaderOwned, writer: Self::WriterOwned) -> bool;

    /// Splits into owned reader and writer halves.
    fn into_split(self) -> (halves: (Self::ReaderOwned, Self::WriterOwned))
        ensures
            self.splits_into(halves.0, halves.1),
    ;
}

/// Marker trait for streams used in the system.
pub trait NetworkStream: StreamSplit {

}

/// Wrapper type used to implement stream traits.
pub struct UdpStreamImpl<P: Transport>(pub UdpStream<P>);

impl<P: Transport> UdpStreamImpl<P> {
    /// Creates a new wrapper.
    pub fn new(stream: UdpStream<P>) -> (wrapper: UdpStreamImpl<P>)
        ensures
            wrapper.0 == stream,
    {
        UdpStreamImpl(stream)
    }
}

impl<P: Transport> StreamSplit for UdpStreamImpl<P> {
    type ReaderRef<'a> = UdpStreamReadHalf<P>;

    type WriterRef<'a> = UdpStreamWriteHalf<'a, P>;

    type Fresh = (P::Incoming, P::Timer);

    open spec fn lends<'a>(
        &'a self,
        fresh: (P::Incoming, P::Timer),
        reader: UdpStreamReadHalf<P>,
        writer: UdpStreamWriteHalf<'a, P>,
    ) -> bool {
        &&& reader.recv_stream == fresh.0
        &&& reader.timeout == fresh.1
        &&& leftover(reader.remaining) == leftover(self.0.remaining)
        &&& writer.is_connect == self.0.is_connect
        &&& *writer.socket == self.0.socket
        &&& writer.peer_addr == self.0.peer_addr
    }

    fn split<'a>(&'a mut self, fresh: (P::Incoming, P::Timer)) -> (halves: (
        UdpStreamReadHalf<P>,
        UdpStreamWriteHalf<'a, P>,
    ))
        ensures
            *final(self) == *old(self),
    {
        self.0.split(fresh.0, fresh.1)
    }

    type ReaderOwned = UdpStreamOwnedReadHalf<P>;

    type WriterOwned = UdpStreamOwnedWriteHalf<P>;

    open spec fn splits_into(
        self,
        reader: UdpStreamOwnedReadHalf<P>,
        writer: UdpStreamOwnedWriteHalf<P>,
    ) -> bool {
        &&& reader.recv_stream == self.0.recv_stream
        &&& reader.remaining == self.0.remaining
        &&& reader.timeout == self.0.timeout
        &&& writer.is_connect == self.0.is_connect
        &&& writer.socket == self.0.socket
        &&& writer.peer_addr == self.0.peer_addr
        &&& reader.guard == writer.guard
        &&& reader.guard.handler_guard == self.0.handler_guard
        &&& reader.guard.listener_guard == self.0.listener_guard
    }

    fn into_split(self) -> (halves: (UdpStreamOwnedReadHalf<P>, UdpStreamOwnedWriteHalf<P>)) {
        self.0.into_split()
    }
}

impl<P: Transport> NetworkStream for UdpStreamImpl<P> {

}

/// How a stream to an address is opened.
#[derive(Clone, Copy, Debug, PartialEq, Eq, Structural)]
pub enum OpenStep {
    /// Connect over TCP.
    Tcp { peer: SocketAddr },
    /// Bind a UDP socket and connect it.
    Udp { local: SocketAddr, peer: SocketAddr },
}

/// Provides an abstraction for connect.
pub trait StreamProvider {
    /// How a stream to the address is opened.
    spec fn opens(addr: SocketAddr) -> OpenStep;

    /// Says how to open a stream to one of the addresses of a lookup.
    fn from_addr(addr: SocketAddr) -> (step: OpenStep)
        ensures
            step == Self::opens(addr),
    ;
}

/// Provider for TCP connections.
pub struct TcpStreamProvider;

impl StreamProvider for TcpStreamProvider {
    open spec fn opens(addr: SocketAddr) -> OpenStep {
        OpenStep::Tcp { peer: addr }
    }

    fn from_addr(addr: SocketAddr) -> (step: OpenStep)
        ensures
            step == (OpenStep::Tcp { peer: addr }),
    {
        OpenStep::Tcp { peer: addr }
    }
}

/// Provider for UDP connections.
pub struct UdpStreamProvider;

impl StreamProvider for UdpStreamProvider {
    open spec fn opens(addr: SocketAddr) -> OpenStep {
        OpenStep::Udp { local: unspecified_for(addr), peer: addr }
    }

    fn from_addr(addr: SocketAddr) -> (step: OpenStep)
        ensures
            step matches OpenStep::Udp { local, peer } && peer == addr && (local is V4 <==> addr
                is V4),
    {
        OpenStep::Udp { local: local_addr_for(&addr), peer: addr }
    }
}

/// How a listener is bound.
#[derive(Clone, Copy, Debug, PartialEq, Eq, Structural)]
pub enum BindStep {
    /// Listen on TCP.
    Tcp { local: SocketAddr },
    /// Bind a UDP socket and receive for all its peers.
    Udp { local: SocketAddr },
}

/// Provides an abstraction for bind.
pub trait ListenerProvider {
    /// How a listener on the address is bound.
    spec fn binds(addr: SocketAddr) -> BindStep;

    /// Says how to bind a listener to one of the addresses of a lookup.
    fn bind(addr: SocketAddr) -> (step: BindStep)
        ensures
            step == Self::binds(addr),
    ;
}

/// Provider for TCP listeners.
pub struct TcpListenerProvider;

impl ListenerProvider for TcpListenerProvider {
    open spec fn binds(addr: SocketAddr) -> BindStep {
        BindStep::Tcp { local: addr }
    }

    fn bind(addr: SocketAddr) -> (step: BindStep)
        ensures
            step == (BindStep::Tcp { local: addr }),
    {
        BindStep::Tcp { local: addr }
    }
}

/// Provider for UDP listeners.
pub struct UdpListenerProvider;

impl ListenerProvider for UdpListenerProvider {
    open spec fn binds(addr: SocketAddr) -> BindStep {
        BindStep::Udp { local: addr }
    }

    fn bind(addr: SocketAddr) -> (step: BindStep)
        ensures
            step == (BindStep::Udp { local: addr }),
    {
        BindStep::Udp { local: addr }
    }
}

/// Takes the first address of a lookup.
pub fn got_one_socket_addr<E>(addrs: Result<OneOrMore, E>) -> (addr: Result<
    SocketAddr,
    Failure<E>,
>)
    ensures
        match addrs {
            Ok(found) => if found@.len() > 0 {
                addr == Ok::<SocketAddr, Failure<E>>(found@.first())
            } else {
                addr matches Err(failure) && failure.raised(
                    ErrorKind::InvalidInput,
                    no_addresses(),
                )
            },
            Err(e) => addr == Err::<SocketAddr, Failure<E>>(Failure::Passed(e)),
        },
        addrs is Ok && addrs->Ok_0@.len() == 0 ==> {
            &&& addr matches Err(Failure::Raised(e))
            &&& e.kind == ErrorKind::InvalidInput
            &&& e.message@ == "could not resolve to any addresses"@
        },
{
    match addrs {
        Ok(mut found) => match found.next() {
            Some(addr) => Ok(addr),
            None => Err(
                Failure::Raised(
                    NetError::new(ErrorKind::InvalidInput, "could not resolve to any addresses"),
                ),
            ),
        },
        Err(e) => Err(Failure::Passed(e)),
    }
}

/// How many seconds a TCP connection stays idle before keepalive probes are sent.
pub const TCP_KEEPALIVE_TIME: u64 = 20;

/// The seconds between two keepalive probes.
pub const TCP_KEEPALIVE_INTERVAL: u64 = 20;

/// How many keepalive probes are sent before the connection is given up.
pub const TCP_KEEPALIVE_PROBES: u32 = 3;

#[verifier::external_type_specification]
#[verifier::external_body]
pub struct ExTcpKeepalive(TcpKeepalive);

/// The settings that keepalive parameters hold: the idle seconds, the seconds
/// between two probes and the number of probes, each as far as it was set.
pub uninterp spec fn keepalive_settings(params: TcpKeepalive) -> (
    Option<u64>,
    Option<u64>,
    Option<u32>,
);

/// `TcpKeepalive::new`: nothing set.
#[verifier::external_body]
fn keepalive_new() -> (params: TcpKeepalive)
    ensures
        keepalive_settings(params) == (None::<u64>, None::<u64>, None::<u32>),
{
    TcpKeepalive::new()
}

/// `TcpKeepalive::with_time`: sets the idle time, here in whole seconds, and
/// leaves the other settings.
#[verifier::external_body]
fn keepalive_with_time(params: TcpKeepalive, secs: u64) -> (with: TcpKeepalive)
    ensures
        keepalive_settings(with) == (
            Some(secs),
            keepalive_settings(params).1,
            keepalive_settings(params).2,
        ),
{
    params.with_time(std::time::Duration::from_secs(secs))
}

/// `TcpKeepalive::with_interval`: sets the time between two probes, here in whole
/// seconds, and leaves the other settings.
#[verifier::external_body]
fn keepalive_with_interval(params: TcpKeepalive, secs: u64) -> (with: TcpKeepalive)
    ensures
        keepalive_settings(with) == (
            keepalive_settings(params).0,
            Some(secs),
            keepalive_settings(params).2,
        ),
{
    params.with_interval(std::time::Duration::from_secs(secs))
}

/// `TcpKeepalive::with_retries`: sets the number of probes and leaves the other
/// settings.
#[verifier::external_body]
fn keepalive_with_retries(params: TcpKeepalive, probes: u32) -> (with: TcpKeepalive)
    ensures
        keepalive_settings(with) == (
            keepalive_settings(params).0,
            keepalive_settings(params).1,
            Some(probes),
        ),
{
    params.with_retries(probes)
}

/// The parameters with which keepalive is enabled on a TCP socket of Windows: the
/// number of probes is left to the system.
pub fn set_tcp_keep_alive_windows() -> (params: TcpKeepalive)
    ensures
        keepalive_settings(params) == (
            Some(TCP_KEEPALIVE_TIME),
            Some(TCP_KEEPALIVE_INTERVAL),
            None::<u32>,
        ),
        keepalive_settings(params) == (Some(20u64), Some(20u64), None::<u32>),
{
    let params = keepalive_with_time(keepalive_new(), TCP_KEEPALIVE_TIME);
    keepalive_with_interval(params, TCP_KEEPALIVE_INTERVAL)
}

/// The parameters with which keepalive is enabled on a TCP socket of any other
/// system.
pub fn set_tcp_keep_alive() -> (params: TcpKeepalive)
    ensures
        keepalive_settings(params) == (
            Some(TCP_KEEPALIVE_TIME),
            Some(TCP_KEEPALIVE_INTERVAL),
            Some(TCP_KEEPALIVE_PROBES),
        ),
        keepalive_settings(params) == (Some(20u64), Some(20u64), Some(3u32)),
{
    let mut params = keepalive_new();
    params = keepalive_with_time(params, TCP_KEEPALIVE_TIME);
    params = keepalive_with_interval(params, TCP_KEEPALIVE_INTERVAL);
    keepalive_with_retries(params, TCP_KEEPALIVE_PROBES)
}

/// Each provider opens streams of its own protocol to the very address given; a UDP
/// socket is bound to any address of the same family, on any port.
pub proof fn providers_open_the_address_given(addr: SocketAddr)
    ensures
        TcpStreamProvider::opens(addr) == (OpenStep::Tcp { peer: addr }),
        match UdpStreamProvider::opens(addr) {
            OpenStep::Udp { local, peer } => {
                &&& peer == addr
                &&& match (addr, local) {
                    (SocketAddr::V4(_), SocketAddr::V4(a)) => a.ip.bits == 0 && a.port == 0,
                    (SocketAddr::V6(_), SocketAddr::V6(a)) => a.ip.bits == 0 && a.port == 0
                        && a.flowinfo == 0 && a.scope_id == 0,
                    _ => false,
                }
            },
            OpenStep::Tcp { .. } => false,
        },
        TcpListenerProvider::binds(addr) == (BindStep::Tcp { local: addr }),
        UdpListenerProvider::binds(addr) == (BindStep::Udp { local: addr }),
{
}

/// The owned halves of a stream hold all that it held: what is left over, the
/// channel and the timer on the read side, the socket and the peer on the write
/// side, and one guard for both, with what keeps the stream alive.
pub proof fn owned_halves_hold_the_stream<P: Transport>(
    stream: UdpStreamImpl<P>,
    reader: UdpStreamOwnedReadHalf<P>,
    writer: UdpStreamOwnedWriteHalf<P>,
)
    requires
        stream.splits_into(reader, writer),
    ensures
        reader.recv_stream == stream.0.recv_stream,
        reader.remaining == stream.0.remaining,
        reader.timeout == stream.0.timeout,
        writer.is_connect == stream.0.is_connect,
        writer.socket == stream.0.socket,
        writer.peer_addr == stream.0.peer_addr,
        reader.guard == writer.guard,
        reader.guard.handler_guard == stream.0.handler_guard,
        reader.guard.listener_guard == stream.0.listener_guard,
{
}

/// The halves that a stream lends: the reader has the handles it was given and a
/// copy of what is left over, byte for byte, and the writer has the socket and the
/// peer of the stream.
pub proof fn lent_halves_are_those_of_the_stream<P: Transport>(
    stream: UdpStreamImpl<P>,
    fresh: (P::Incoming, P::Timer),
    reader: UdpStreamReadHalf<P>,
    writer: UdpStreamWriteHalf<'_, P>,
)
    requires
        stream.lends(fresh, reader, writer),
    ensures
        reader.recv_stream == fresh.0,
        reader.timeout == fresh.1,
        reader.remaining is Some <==> stream.0.remaining is Some,
        stream.0.remaining is Some ==> bytes_of(reader.remaining->0) == bytes_of(
            stream.0.remaining->0,
        ),
        writer.is_connect == stream.0.is_connect,
        *writer.socket == stream.0.socket,
        writer.peer_addr == stream.0.peer_addr,
{
}

} // verus!
