//! From what a caller names (an address, a list, a host) to socket addresses.

use crate::error::{ErrorKind, Failure, NetError};
use crate::host_port::{get_socket_addrs_inner, halves, port_of};
use crate::net::{
    parts, socket_addr, IpAddr, Ipv4Addr, Ipv6Addr, SocketAddr, SocketAddrV4, SocketAddrV6,
};
use crate::read::Polled;
use std::collections::VecDeque;
use vstd::prelude::*;

verus! {

/// The addresses of a lookup that are still to come: a direct address, or those
/// that a resolver found. The view is the list of them.
#[derive(Debug)]
pub enum OneOrMore {
    /// Direct address.
    One(Option<SocketAddr>),
    /// Addresses resolved by DNS, or given as a list.
    More(VecDeque<SocketAddr>),
}

impl View for OneOrMore {
    type V = Seq<SocketAddr>;

    open spec fn view(&self) -> Seq<SocketAddr> {
        match self {
            OneOrMore::One(Some(addr)) => seq![*addr],
            OneOrMore::One(None) => Seq::empty(),
            OneOrMore::More(addrs) => addrs@,
        }
    }
}

impl OneOrMore {
    /// All the addresses of a list.
    pub fn more(addrs: &[SocketAddr]) -> (all: OneOrMore)
        ensures
            all is More,
            all@ == addrs@,
    {
        let mut all: VecDeque<SocketAddr> = VecDeque::new();
        for i in 0..addrs.len()
            invariant
                all@ == addrs@.take(i as int),
        {
            all.push_back(addrs[i]);
            assert(addrs@.take(i + 1) =~= addrs@.take(i as int).push(addrs@[i as int]));
        }
        assert(addrs@.take(addrs@.len() as int) =~= addrs@);
        OneOrMore::More(all)
    }

    /// Takes the next address.
    pub fn next(&mut self) -> (addr: Option<SocketAddr>)
        ensures
            old(self)@.len() == 0 ==> addr is None && final(self)@ == old(self)@,
            old(self)@.len() > 0 ==> {
                &&& addr == Some(old(self)@.first())
                &&& final(self)@ == old(self)@.drop_first()
            },
    {
        let addr = match self {
            OneOrMore::One(one) => one.take(),
            OneOrMore::More(addrs) => addrs.pop_front(),
        };
        assert(old(self)@.len() > 0 ==> self@ =~= old(self)@.drop_first());
        addr
    }

    /// How many addresses are still to come.
    pub fn size_hint(&self) -> (bounds: (usize, Option<usize>))
        ensures
            bounds.0 == self@.len(),
            bounds.1 == Some(bounds.0),
    {
        let len: usize = match self {
            OneOrMore::One(Some(_)) => 1,
            OneOrMore::One(None) => 0,
            OneOrMore::More(addrs) => addrs.len(),
        };
        (len, Some(len))
    }
}

/// A lookup for the resolver.
#[derive(Debug)]
pub enum LookupRequest {
    /// A text of the form `host:port`.
    Text(String),
    /// A host and a port.
    HostPort(String, u16),
}

impl LookupRequest {
    /// The host to look up and the port to join with what is found. A text that
    /// is no `host:port` is invalid input.
    pub fn host_port(&self) -> (parts: Result<(&str, u16), NetError>)
        ensures
            match *self {
                LookupRequest::Text(text) => match halves(text@) {
                    None => parts matches Err(e) && e.says(
                        ErrorKind::InvalidInput,
                        "invalid socket address"@,
                    ),
                    Some((host, digits)) => match port_of(digits) {
                        None => parts matches Err(e) && e.says(
                            ErrorKind::InvalidInput,
                            "invalid port value"@,
                        ),
                        Some(port) => parts matches Ok(p) && p.0@ == host && p.1 == port,
                    },
                },
                LookupRequest::HostPort(host, port) => parts matches Ok(p) && p.0@ == host@
                    && p.1 == port,
            },
    {
        match self {
            LookupRequest::Text(text) => get_socket_addrs_inner(text.as_str()),
            LookupRequest::HostPort(host, port) => Ok((host.as_str(), *port)),
        }
    }
}

/// How far a lookup is.
#[derive(Debug)]
pub enum State {
    /// The addresses are known.
    Ready(OneOrMore),
    /// The resolver has to find them.
    Blocking(LookupRequest),
}

/// A lookup, which may be ready from the start.
#[derive(Debug)]
pub struct MaybeReady {
    pub state: State,
}

impl MaybeReady {
    /// These addresses are known.
    pub open spec fn knows(self, addrs: Seq<SocketAddr>) -> bool {
        self.state matches State::Ready(known) && known@ == addrs
    }

    /// The resolver has to look this text up.
    pub open spec fn asks_text(self, text: Seq<char>) -> bool {
        self.state matches State::Blocking(LookupRequest::Text(t)) && t@ == text
    }

    /// The resolver has to look this host up.
    pub open spec fn asks_host(self, host: Seq<char>, port: u16) -> bool {
        self.state matches State::Blocking(LookupRequest::HostPort(h, p)) && h@ == host && p
            == port
    }

    /// A lookup that is done: one address.
    pub fn one(addr: SocketAddr) -> (lookup: MaybeReady)
        ensures
            lookup.knows(seq![addr]),
            lookup.state == State::Ready(OneOrMore::One(Some(addr))),
    {
        MaybeReady { state: State::Ready(OneOrMore::One(Some(addr))) }
    }

    /// Asks for the addresses, given what the resolver task answered. Known
    /// addresses are handed out once and need no task. The error of a task is
    /// passed on.
    pub fn poll<E>(&mut self, task: Polled<Result<Vec<SocketAddr>, E>>) -> (addrs: Polled<
        Result<OneOrMore, E>,
    >)
        ensures
            match old(self).state {
                State::Ready(known) => {
                    &&& addrs == Polled::<Result<OneOrMore, E>>::Ready(Ok(known))
                    &&& final(self).knows(Seq::empty())
                    &&& final(self).state == State::Ready(OneOrMore::One(None))
                },
                State::Blocking(_) => {
                    &&& *final(self) == *old(self)
                    &&& match task {
                        Polled::Ready(Ok(found)) => {
                            &&& addrs matches Polled::Ready(Ok(more))
                            &&& more is More
                            &&& more@ == found@
                        },
                        Polled::Ready(Err(e)) => addrs == Polled::<Result<OneOrMore, E>>::Ready(
                            Err(e),
                        ),
                        Polled::Pending => addrs is Pending,
                    }
                },
            },
    {
        match &mut self.state {
            State::Ready(known) => {
                let mut addrs = OneOrMore::One(None);
                std::mem::swap(known, &mut addrs);
                Polled::Ready(Ok(addrs))
            },
            State::Blocking(_) => match task {
                Polled::Ready(Ok(found)) => Polled::Ready(Ok(OneOrMore::more(found.as_slice()))),
                Polled::Ready(Err(e)) => Polled::Ready(Err(e)),
                Polled::Pending => Polled::Pending,
            },
        }
    }
}

/// Converts or resolves to one or more socket addresses.
pub trait ToSocketAddrs {
    /// The lookup is the right one for what `self` names.
    spec fn named_by(&self, lookup: MaybeReady) -> bool;

    /// Starts the lookup.
    fn to_socket_addrs(&self) -> (lookup: MaybeReady)
        ensures
            self.named_by(lookup),
    ;
}

impl ToSocketAddrs for SocketAddr {
    open spec fn named_by(&self, lookup: MaybeReady) -> bool {
        lookup.knows(seq![*self])
    }

    fn to_socket_addrs(&self) -> (lookup: MaybeReady)
        ensures
            lookup.state == State::Ready(OneOrMore::One(Some(*self))),
    {
        MaybeReady::one(*self)
    }
}

impl ToSocketAddrs for SocketAddrV4 {
    open spec fn named_by(&self, lookup: MaybeReady) -> bool {
        lookup.knows(seq![SocketAddr::V4(*self)])
    }

    fn to_socket_addrs(&self) -> (lookup: MaybeReady)
        ensures
            lookup.state == State::Ready(OneOrMore::One(Some(SocketAddr::V4(*self)))),
    {
        SocketAddr::V4(*self).to_socket_addrs()
    }
}

impl ToSocketAddrs for SocketAddrV6 {
    open spec fn named_by(&self, lookup: MaybeReady) -> bool {
        lookup.knows(seq![SocketAddr::V6(*self)])
    }

    fn to_socket_addrs(&self) -> (lookup: MaybeReady)
        ensures
            lookup.state == State::Ready(OneOrMore::One(Some(SocketAddr::V6(*self)))),
    {
        SocketAddr::V6(*self).to_socket_addrs()
    }
}

impl ToSocketAddrs for (IpAddr, u16) {
    open spec fn named_by(&self, lookup: MaybeReady) -> bool {
        lookup.knows(seq![socket_addr(self.0, self.1)])
    }

    fn to_socket_addrs(&self) -> (lookup: MaybeReady)
        ensures
            match self.0 {
                IpAddr::V4(ip) => lookup.state == State::Ready(
                    OneOrMore::One(Some(SocketAddr::V4((SocketAddrV4 { ip, port: self.1 })))),
                ),
                IpAddr::V6(ip) => lookup.state == State::Ready(
                    OneOrMore::One(
                        Some(
                            SocketAddr::V6(
                                (SocketAddrV6 { ip, port: self.1, flowinfo: 0, scope_id: 0 }),
                            ),
                        ),
                    ),
                ),
            },
    {
        MaybeReady::one(SocketAddr::new(self.0, self.1))
    }
}

impl ToSocketAddrs for (Ipv4Addr, u16) {
    open spec fn named_by(&self, lookup: MaybeReady) -> bool {
        lookup.knows(seq![socket_addr(IpAddr::V4(self.0), self.1)])
    }

    fn to_socket_addrs(&self) -> (lookup: MaybeReady)
        ensures
            lookup.state == State::Ready(
                OneOrMore::One(Some(SocketAddr::V4((SocketAddrV4 { ip: self.0, port: self.1 })))),
            ),
    {
        SocketAddrV4::new(self.0, self.1).to_socket_addrs()
    }
}

impl ToSocketAddrs for (Ipv6Addr, u16) {
    open spec fn named_by(&self, lookup: MaybeReady) -> bool {
        lookup.knows(seq![socket_addr(IpAddr::V6(self.0), self.1)])
    }

    fn to_socket_addrs(&self) -> (lookup: MaybeReady)
        ensures
            lookup.state == State::Ready(
                OneOrMore::One(
                    Some(
                        SocketAddr::V6(
                            (SocketAddrV6 { ip: self.0, port: self.1, flowinfo: 0, scope_id: 0 }),
                        ),
                    ),
                ),
            ),
    {
        SocketAddrV6::new(self.0, self.1, 0, 0).to_socket_addrs()
    }
}

impl ToSocketAddrs for &[SocketAddr] {
    open spec fn named_by(&self, lookup: MaybeReady) -> bool {
        lookup.knows(self@)
    }

    fn to_socket_addrs(&self) -> (lookup: MaybeReady)
        ensures
            lookup.state matches State::Ready(OneOrMore::More(addrs)) && addrs@ == self@,
    {
        MaybeReady { state: State::Ready(OneOrMore::more(self)) }
    }
}

/// A text that names an address, with the socket address that it spells out, if
/// it does.
#[derive(Clone, Copy, Debug)]
pub struct TextAddr<'a> {
    pub text: &'a str,
    pub literal: Option<SocketAddr>,
}

impl<'a> ToSocketAddrs for TextAddr<'a> {
    open spec fn named_by(&self, lookup: MaybeReady) -> bool {
        match self.literal {
            Some(addr) => lookup.knows(seq![addr]),
            None => lookup.asks_text(self.text@),
        }
    }

    fn to_socket_addrs(&self) -> (lookup: MaybeReady)
        ensures
            match self.literal {
                Some(addr) => lookup.state == State::Ready(OneOrMore::One(Some(addr))),
                None => lookup.state matches State::Blocking(LookupRequest::Text(text)) && text@
                    == self.text@,
            },
    {
        match self.literal {
            Some(addr) => MaybeReady::one(addr),
            None => MaybeReady {
                state: State::Blocking(LookupRequest::Text(self.text.to_owned())),
            },
        }
    }
}

/// A host and a port, with the IP address of either family that the host spells
/// out, if it does.
#[derive(Clone, Copy, Debug)]
pub struct HostAddr<'a> {
    pub host: &'a str,
    pub port: u16,
    pub v4: Option<Ipv4Addr>,
    pub v6: Option<Ipv6Addr>,
}

impl<'a> ToSocketAddrs for HostAddr<'a> {
    open spec fn named_by(&self, lookup: MaybeReady) -> bool {
        match (self.v4, self.v6) {
            (Some(ip), _) => lookup.knows(seq![socket_addr(IpAddr::V4(ip), self.port)]),
            (None, Some(ip)) => lookup.knows(seq![socket_addr(IpAddr::V6(ip), self.port)]),
            (None, None) => lookup.asks_host(self.host@, self.port),
        }
    }

    fn to_socket_addrs(&self) -> (lookup: MaybeReady)
        ensures
            match (self.v4, self.v6) {
                (Some(ip), _) => lookup.state == State::Ready(
                    OneOrMore::One(Some(SocketAddr::V4((SocketAddrV4 { ip, port: self.port })))),
                ),
                (None, Some(ip)) => lookup.state == State::Ready(
                    OneOrMore::One(
                        Some(
                            SocketAddr::V6(
                                (SocketAddrV6 { ip, port: self.port, flowinfo: 0, scope_id: 0 }),
                            ),
                        ),
                    ),
                ),
                (None, None) => lookup.state matches State::Blocking(
                    LookupRequest::HostPort(host, port),
                ) && host@ == self.host@ && port == self.port,
            },
    {
        if let Some(ip) = self.v4 {
            return MaybeReady::one(SocketAddr::V4(SocketAddrV4::new(ip, self.port)));
        }
        if let Some(ip) = self.v6 {
            return MaybeReady::one(SocketAddr::V6(SocketAddrV6::new(ip, self.port, 0, 0)));
        }
        MaybeReady {
            state: State::Blocking(LookupRequest::HostPort(self.host.to_owned(), self.port)),
        }
    }
}

impl<T> ToSocketAddrs for &T where T: ToSocketAddrs {
    open spec fn named_by(&self, lookup: MaybeReady) -> bool {
        (**self).named_by(lookup)
    }

    fn to_socket_addrs(&self) -> (lookup: MaybeReady) {
        (**self).to_socket_addrs()
    }
}

/// The addresses that a lookup with the custom resolver found. A missing
/// resolver and a failed lookup are invalid input; the latter is caused by the
/// resolver's error.
pub fn get_ip_addrs_inner<E>(lookup: Option<Result<Vec<IpAddr>, E>>) -> (ips: Result<
    Vec<IpAddr>,
    Failure<E>,
>)
    ensures
        match lookup {
            Some(Ok(found)) => ips == Ok::<Vec<IpAddr>, Failure<E>>(found),
            Some(Err(cause)) => ips == Err::<Vec<IpAddr>, Failure<E>>(
                (Failure::Caused { kind: ErrorKind::InvalidInput, cause }),
            ),
            None => ips matches Err(failure) && failure.raised(
                ErrorKind::InvalidInput,
                "custom resolver not exist"@,
            ),
        },
{
    match lookup {
        Some(Ok(found)) => Ok(found),
        Some(Err(cause)) => Err(Failure::Caused { kind: ErrorKind::InvalidInput, cause }),
        None => Err(
            Failure::Raised(NetError::new(ErrorKind::InvalidInput, "custom resolver not exist")),
        ),
    }
}

/// What follows a lookup with the custom resolver.
#[derive(Debug)]
pub enum HostLookup {
    /// The addresses of the host.
    Resolved(Vec<SocketAddr>),
    /// The resolver of the system is asked instead, and its answer stands.
    AskSystem,
}

/// The socket address of each IP address, all with one port.
pub open spec fn with_port(ips: Seq<IpAddr>, port: u16) -> Seq<SocketAddr> {
    ips.map_values(|ip: IpAddr| socket_addr(ip, port))
}

/// Joins what the custom resolver found for a host with the port. Where it found
/// nothing, whatever the reason, the system is asked.
pub fn get_socket_addrs_from_host_port_inner<E>(
    ips: Result<Vec<IpAddr>, E>,
    port: u16,
) -> (next: HostLookup)
    ensures
        match ips {
            Ok(found) => next matches HostLookup::Resolved(addrs) && addrs@ == with_port(
                found@,
                port,
            ),
            Err(_) => next is AskSystem,
        },
        ips matches Ok(found) ==> {
            &&& next matches HostLookup::Resolved(addrs)
            &&& addrs@.len() == found@.len()
            &&& forall|i: int|
                0 <= i < found@.len() ==> parts(#[trigger] addrs@[i]) == (found@[i], port)
        },
{
    match ips {
        Ok(found) => {
            let mut addrs: Vec<SocketAddr> = Vec::new();
            for i in 0..found.len()
                invariant
                    addrs@ == with_port(found@.take(i as int), port),
            {
                addrs.push(SocketAddr::new(found[i], port));
                assert(with_port(found@.take(i + 1), port) =~= with_port(
                    found@.take(i as int),
                    port,
                ).push(socket_addr(found@[i as int], port)));
            }
            assert(found@.take(found@.len() as int) =~= found@);
            HostLookup::Resolved(addrs)
        },
        Err(_) => HostLookup::AskSystem,
    }
}

/// The right end of a lookup that ran as a task: what the task returned, or
/// invalid input with this message where it did not come to an end.
pub open spec fn task_end<T, E>(
    end: Result<T, Failure<E>>,
    joined: Option<Result<T, E>>,
    message: Seq<char>,
) -> bool {
    match joined {
        Some(Ok(found)) => end == Ok::<T, Failure<E>>(found),
        Some(Err(e)) => end == Err::<T, Failure<E>>(Failure::Passed(e)),
        None => end matches Err(failure) && failure.raised(ErrorKind::InvalidInput, message),
    }
}

fn end_task<T, E>(joined: Option<Result<T, E>>, message: &str) -> (end: Result<T, Failure<E>>)
    ensures
        task_end(end, joined, message@),
{
    match joined {
        Some(Ok(found)) => Ok(found),
        Some(Err(e)) => Err(Failure::Passed(e)),
        None => Err(Failure::Raised(NetError::new(ErrorKind::InvalidInput, message))),
    }
}

/// Ends the lookup of the IP addresses of a host.
pub fn get_ip_addrs<E>(joined: Option<Result<Vec<IpAddr>, E>>) -> (ips: Result<
    Vec<IpAddr>,
    Failure<E>,
>)
    ensures
        task_end(ips, joined, "get ip addrs"@),
        match joined {
            Some(Ok(found)) => ips == Ok::<Vec<IpAddr>, Failure<E>>(found),
            Some(Err(e)) => ips == Err::<Vec<IpAddr>, Failure<E>>(Failure::Passed(e)),
            None => {
                &&& ips matches Err(Failure::Raised(e))
                &&& e.kind == ErrorKind::InvalidInput
                &&& e.message@ == "get ip addrs"@
            },
        },
{
    end_task(joined, "get ip addrs")
}

/// Ends the lookup of the socket addresses of a host and a port.
pub fn get_socket_addrs_from_host_port<E>(joined: Option<Result<Vec<SocketAddr>, E>>) -> (addrs:
    Result<Vec<SocketAddr>, Failure<E>>)
    ensures
        task_end(addrs, joined, "get socket addrs from host port"@),
        match joined {
            Some(Ok(found)) => addrs == Ok::<Vec<SocketAddr>, Failure<E>>(found),
            Some(Err(e)) => addrs == Err::<Vec<SocketAddr>, Failure<E>>(Failure::Passed(e)),
            None => {
                &&& addrs matches Err(Failure::Raised(e))
                &&& e.kind == ErrorKind::InvalidInput
                &&& e.message@ == "get socket addrs from host port"@
            },
        },
{
    end_task(joined, "get socket addrs from host port")
}

/// Ends the lookup of the socket addresses of a text of the form `host:port`.
pub fn get_socket_addrs<E>(joined: Option<Result<Vec<SocketAddr>, E>>) -> (addrs: Result<
    Vec<SocketAddr>,
    Failure<E>,
>)
    ensures
        task_end(addrs, joined, "get socket addrs"@),
        match joined {
            Some(Ok(found)) => addrs == Ok::<Vec<SocketAddr>, Failure<E>>(found),
            Some(Err(e)) => addrs == Err::<Vec<SocketAddr>, Failure<E>>(Failure::Passed(e)),
            None => {
                &&& addrs matches Err(Failure::Raised(e))
                &&& e.kind == ErrorKind::InvalidInput
                &&& e.message@ == "get socket addrs"@
            },
        },
{
    end_task(joined, "get socket addrs")
}

/// The message where a lookup found no address at all.
pub open spec fn no_addresses() -> Seq<char> {
    "could not resolve to any addresses"@
}

/// An attempt at each address of a lookup in turn, as far as it has come. Its view
/// is the error of the last address tried, if one was.
#[derive(Debug)]
pub struct Attempts<E> {
    last_err: Option<E>,
}

impl<E> View for Attempts<E> {
    type V = Option<E>;

    closed spec fn view(&self) -> Option<E> {
        self.last_err
    }
}

/// What happened in such an attempt.
#[derive(Debug)]
pub enum AttemptEvent<T, E> {
    /// The lookup was asked for its next address.
    Address(Option<SocketAddr>),
    /// An address was tried.
    Outcome(Result<T, E>),
}

/// What follows in such an attempt.
#[derive(Debug)]
pub enum Attempt<T, E> {
    /// Ask the lookup for its next address.
    Next,
    /// Try this address.
    Try(SocketAddr),
    /// It is over.
    Done(Result<T, Failure<E>>),
}

/// The error of the last address tried, after an event.
pub open spec fn last_err_after<T, E>(last_err: Option<E>, event: AttemptEvent<T, E>) -> Option<
    E,
> {
    match event {
        AttemptEvent::Outcome(Err(e)) => Some(e),
        _ => last_err,
    }
}

/// The right answer to an event: an address is tried; a success is the end, and a
/// failure leads to the next address; where no address is left the last error is
/// the end, or the lack of any address.
pub open spec fn follows<T, E>(
    last_err: Option<E>,
    event: AttemptEvent<T, E>,
    next: Attempt<T, E>,
) -> bool {
    match event {
        AttemptEvent::Address(Some(addr)) => next == Attempt::<T, E>::Try(addr),
        AttemptEvent::Address(None) => match last_err {
            Some(e) => next == Attempt::<T, E>::Done(Err(Failure::Passed(e))),
            None => {
                &&& next matches Attempt::Done(Err(failure))
                &&& failure.raised(ErrorKind::InvalidInput, no_addresses())
            },
        },
        AttemptEvent::Outcome(Ok(value)) => next == Attempt::<T, E>::Done(Ok(value)),
        AttemptEvent::Outcome(Err(_)) => next is Next,
    }
}

/// Begins an attempt at each address of a lookup. A failed lookup ends it.
pub fn each_addr<I, E>(addrs: Result<I, E>) -> (attempts: Result<(I, Attempts<E>), E>)
    ensures
        match addrs {
            Ok(found) => attempts matches Ok(a) && a.0 == found && a.1@ is None,
            Err(e) => attempts == Err::<(I, Attempts<E>), E>(e),
        },
{
    match addrs {
        Ok(addrs) => Ok((addrs, Attempts { last_err: None })),
        Err(e) => Err(e),
    }
}

impl<E> Attempts<E> {
    /// Takes note of what happened and says what to do next; the lookup is asked
    /// for an address only where the last one failed.
    pub fn step<T>(&mut self, event: AttemptEvent<T, E>) -> (next: Attempt<T, E>)
        ensures
            follows(old(self)@, event, next),
            match event {
                AttemptEvent::Address(Some(addr)) => next == Attempt::<T, E>::Try(addr)
                    && final(self)@ == old(self)@,
                AttemptEvent::Address(None) => match old(self)@ {
                    Some(e) => next == Attempt::<T, E>::Done(Err(Failure::Passed(e))),
                    None => {
                        &&& next matches Attempt::Done(Err(Failure::Raised(e)))
                        &&& e.kind == ErrorKind::InvalidInput
                        &&& e.message@ == "could not resolve to any addresses"@
                    },
                },
                AttemptEvent::Outcome(Ok(value)) => next == Attempt::<T, E>::Done(Ok(value)),
                AttemptEvent::Outcome(Err(e)) => next is Next && final(self)@ == Some(e),
            },
            match next {
                Attempt::Done(Ok(_)) => final(self)@ == old(self)@,
                Attempt::Done(Err(_)) => final(self)@ is None,
                _ => final(self)@ == last_err_after(old(self)@, event),
            },
    {
        match event {
            AttemptEvent::Address(Some(addr)) => Attempt::Try(addr),
            AttemptEvent::Address(None) => match self.last_err.take() {
                Some(e) => Attempt::Done(Err(Failure::Passed(e))),
                None => Attempt::Done(
                    Err(
                        Failure::Raised(
                            NetError::new(
                                ErrorKind::InvalidInput,
                                "could not resolve to any addresses",
                            ),
                        ),
                    ),
                ),
            },
            AttemptEvent::Outcome(Ok(value)) => Attempt::Done(Ok(value)),
            AttemptEvent::Outcome(Err(e)) => {
                self.last_err = Some(e);
                Attempt::Next
            },
        }
    }
}

/// An attempt that goes on after `from` addresses, tries so many more and comes to
/// this end. The lookup has `addr(i)` at `i`, if any, and that address fares as
/// `outcome(i)` says.
pub open spec fn runs<T, E>(
    last_err: Option<E>,
    from: int,
    addr: spec_fn(int) -> Option<SocketAddr>,
    outcome: spec_fn(int) -> Result<T, E>,
    tries: nat,
    end: Result<T, Failure<E>>,
) -> bool
    decreases tries,
{
    let asked = AttemptEvent::<T, E>::Address(addr(from));
    if tries == 0 {
        follows(last_err, asked, Attempt::Done(end))
    } else {
        let tried = AttemptEvent::Outcome(outcome(from));
        let err = last_err_after(last_err, asked);
        &&& addr(from) matches Some(a) && follows(last_err, asked, Attempt::Try(a))
        &&& {
            ||| tries == 1 && follows(err, tried, Attempt::Done(end))
            ||| follows(err, tried, Attempt::Next) && runs(
                last_err_after(err, tried),
                from + 1,
                addr,
                outcome,
                (tries - 1) as nat,
                end,
            )
        }
    }
}

proof fn lemma_runs<T, E>(
    last_err: Option<E>,
    from: int,
    addr: spec_fn(int) -> Option<SocketAddr>,
    outcome: spec_fn(int) -> Result<T, E>,
    tries: nat,
    end: Result<T, Failure<E>>,
)
    requires
        runs(last_err, from, addr, outcome, tries, end),
    ensures
        forall|i: int| from <= i < from + tries ==> (#[trigger] addr(i)) is Some,
        forall|i: int| from <= i < from + tries - 1 ==> (#[trigger] outcome(i)) is Err,
        match end {
            Ok(value) => tries > 0 && outcome(from + tries - 1) == Ok::<T, E>(value),
            Err(failure) => {
                &&& addr(from + tries) is None
                &&& tries > 0 ==> outcome(from + tries - 1) is Err && failure == Failure::Passed(
                    outcome(from + tries - 1)->Err_0,
                )
                &&& tries == 0 ==> match last_err {
                    Some(e) => failure == Failure::Passed(e),
                    None => failure.raised(ErrorKind::InvalidInput, no_addresses()),
                }
            },
        },
    decreases tries,
{
    if tries > 0 && outcome(from) is Err {
        let err = outcome(from)->Err_0;
        lemma_runs(Some(err), from + 1, addr, outcome, (tries - 1) as nat, end);
    }
}

/// The addresses of a lookup are tried in order, up to the first that succeeds,
/// and that success is the end. Where none succeeds all are tried and the error
/// of the last one is the end; where there is none at all, invalid input is. The
/// lookup may go on for ever: no address beyond the first success is asked for.
pub proof fn first_address_that_succeeds_wins<T, E>(
    addr: spec_fn(int) -> Option<SocketAddr>,
    outcome: spec_fn(int) -> Result<T, E>,
    tries: nat,
    end: Result<T, Failure<E>>,
)
    requires
        runs(None, 0, addr, outcome, tries, end),
    ensures
        forall|i: int| 0 <= i < tries ==> (#[trigger] addr(i)) is Some,
        forall|i: int| 0 <= i < tries - 1 ==> (#[trigger] outcome(i)) is Err,
        match end {
            Ok(value) => tries > 0 && outcome(tries - 1) == Ok::<T, E>(value),
            Err(Failure::Passed(e)) => {
                &&& tries > 0
                &&& addr(tries as int) is None
                &&& outcome(tries - 1) == Err::<T, E>(e)
            },
            Err(Failure::Raised(e)) => {
                &&& tries == 0
                &&& addr(0) is None
                &&& e.says(ErrorKind::InvalidInput, no_addresses())
            },
            Err(Failure::Caused { .. }) => false,
        },
{
    lemma_runs(None, 0, addr, outcome, tries, end);
}

proof fn lemma_runs_to_success<T, E>(
    last_err: Option<E>,
    from: int,
    addr: spec_fn(int) -> Option<SocketAddr>,
    outcome: spec_fn(int) -> Result<T, E>,
    tries: nat,
    value: T,
)
    requires
        tries > 0,
        forall|i: int| from <= i < from + tries ==> (#[trigger] addr(i)) is Some,
        forall|i: int| from <= i < from + tries - 1 ==> (#[trigger] outcome(i)) is Err,
        outcome(from + tries - 1) == Ok::<T, E>(value),
    ensures
        runs(last_err, from, addr, outcome, tries, Ok(value)),
    decreases tries,
{
    assert(addr(from) is Some);
    if tries > 1 {
        let err = outcome(from)->Err_0;
        lemma_runs_to_success(Some(err), from + 1, addr, outcome, (tries - 1) as nat, value);
    }
}

proof fn lemma_runs_to_last_error<T, E>(
    last_err: Option<E>,
    from: int,
    addr: spec_fn(int) -> Option<SocketAddr>,
    outcome: spec_fn(int) -> Result<T, E>,
    tries: nat,
    err: E,
)
    requires
        forall|i: int| from <= i < from + tries ==> (#[trigger] addr(i)) is Some,
        forall|i: int| from <= i < from + tries ==> (#[trigger] outcome(i)) is Err,
        addr(from + tries) is None,
        tries > 0 ==> outcome(from + tries - 1) == Err::<T, E>(err),
        tries == 0 ==> last_err == Some(err),
    ensures
        runs(last_err, from, addr, outcome, tries, Err(Failure::Passed(err))),
    decreases tries,
{
    if tries > 0 {
        assert(addr(from) is Some);
        let e = outcome(from)->Err_0;
        lemma_runs_to_last_error(Some(e), from + 1, addr, outcome, (tries - 1) as nat, err);
    }
}

/// Where an address of a lookup succeeds and those before it fail, the attempt
/// comes to that success.
pub proof fn success_is_reached<T, E>(
    addr: spec_fn(int) -> Option<SocketAddr>,
    outcome: spec_fn(int) -> Result<T, E>,
    at: nat,
    value: T,
)
    requires
        forall|i: int| 0 <= i <= at ==> (#[trigger] addr(i)) is Some,
        forall|i: int| 0 <= i < at ==> (#[trigger] outcome(i)) is Err,
        outcome(at as int) == Ok::<T, E>(value),
    ensures
        runs(None, 0, addr, outcome, at + 1, Ok(value)),
{
    lemma_runs_to_success(None, 0, addr, outcome, at + 1, value);
}

/// Where all the addresses of a lookup fail, the attempt comes to the error of the
/// last one.
pub proof fn last_error_is_reached<T, E>(
    addr: spec_fn(int) -> Option<SocketAddr>,
    outcome: spec_fn(int) -> Result<T, E>,
    count: nat,
    err: E,
)
    requires
        count > 0,
        forall|i: int| 0 <= i < count ==> (#[trigger] addr(i)) is Some,
        addr(count as int) is None,
        forall|i: int| 0 <= i < count ==> (#[trigger] outcome(i)) is Err,
        outcome(count - 1) == Err::<T, E>(err),
    ensures
        runs(None, 0, addr, outcome, count, Err(Failure::Passed(err))),
{
    lemma_runs_to_last_error(None, 0, addr, outcome, count, err);
}

/// The addresses still to come are those that are there: one, none, or the list in
/// its order.
pub proof fn addresses_to_come(addr: SocketAddr, addrs: VecDeque<SocketAddr>)
    ensures
        OneOrMore::One(Some(addr))@ == seq![addr],
        OneOrMore::One(None)@.len() == 0,
        OneOrMore::More(addrs)@ == addrs@,
{
}

/// What a lookup knows, or asks the resolver, is what its state holds.
pub proof fn a_lookup_is_its_state(
    lookup: MaybeReady,
    known: OneOrMore,
    text: String,
    port: u16,
    addrs: Seq<SocketAddr>,
    chars: Seq<char>,
    other: u16,
)
    ensures
        lookup.knows(addrs) <==> (lookup.state is Ready && lookup.state->Ready_0@ == addrs),
        (MaybeReady { state: State::Blocking(LookupRequest::Text(text)) }).asks_text(chars)
            <==> text@ == chars,
        (MaybeReady { state: State::Blocking(LookupRequest::HostPort(text, port)) }).asks_host(
            chars,
            other,
        ) <==> text@ == chars && port == other,
        lookup.asks_text(chars) ==> lookup.state is Blocking && lookup.state->Blocking_0 is Text,
        lookup.asks_host(chars, other) ==> lookup.state is Blocking
            && lookup.state->Blocking_0 is HostPort,
{
}

/// An address, or an IP address and a port, of either family, names the one socket
/// address that has these parts, and nothing is looked up.
pub proof fn addresses_name_themselves(
    addr: SocketAddr,
    ip: IpAddr,
    port: u16,
    lookup: MaybeReady,
)
    ensures
        addr.named_by(lookup) ==> lookup.state is Ready && lookup.state->Ready_0@ == seq![addr],
        addr matches SocketAddr::V4(a) ==> (a.named_by(lookup) ==> lookup.state is Ready
            && lookup.state->Ready_0@ == seq![addr]),
        addr matches SocketAddr::V6(a) ==> (a.named_by(lookup) ==> lookup.state is Ready
            && lookup.state->Ready_0@ == seq![addr]),
        (ip, port).named_by(lookup) ==> names_one(lookup, ip, port),
        ip matches IpAddr::V4(v4) ==> ((v4, port).named_by(lookup) ==> names_one(lookup, ip, port)),
        ip matches IpAddr::V6(v6) ==> ((v6, port).named_by(lookup) ==> names_one(lookup, ip, port)),
        names_one(lookup, ip, port) ==> {
            &&& lookup.state is Ready
            &&& lookup.state->Ready_0@.len() == 1
            &&& match (ip, lookup.state->Ready_0@[0]) {
                (IpAddr::V4(ip), SocketAddr::V4(a)) => a.ip == ip && a.port == port,
                (IpAddr::V6(ip), SocketAddr::V6(a)) => a.ip == ip && a.port == port && a.flowinfo
                    == 0 && a.scope_id == 0,
                _ => false,
            }
        },
{
}

/// The lookup knows the socket address of an IP address and a port, and no other.
pub open spec fn names_one(lookup: MaybeReady, ip: IpAddr, port: u16) -> bool {
    lookup.knows(seq![socket_addr(ip, port)])
}

/// A reference names what it refers to.
pub proof fn a_reference_names_what_it_refers_to<T: ToSocketAddrs>(named: &T, lookup: MaybeReady)
    ensures
        <&T as ToSocketAddrs>::named_by(&named, lookup) <==> <T as ToSocketAddrs>::named_by(
            named,
            lookup,
        ),
{
}

/// A list names its addresses, all of them, in its order.
pub proof fn a_list_names_its_addresses(addrs: &[SocketAddr], lookup: MaybeReady)
    ensures
        addrs.named_by(lookup) ==> lookup.state is Ready && lookup.state->Ready_0@ == addrs@,
{
}

/// A text that spells out a socket address names it, whatever it is; any other is
/// looked up as it is.
pub proof fn a_text_names_its_literal_or_is_looked_up(text: TextAddr<'_>, lookup: MaybeReady)
    requires
        text.named_by(lookup),
    ensures
        text.literal matches Some(addr) ==> lookup.state is Ready && lookup.state->Ready_0@
            == seq![addr],
        text.literal is None ==> {
            &&& lookup.state is Blocking
            &&& lookup.state->Blocking_0 matches LookupRequest::Text(asked)
            &&& asked@ == text.text@
        },
{
}

/// A host that spells out an IP address names it, joined with the port, IPv4 before
/// IPv6; any other is looked up as it is, with the port.
pub proof fn a_host_names_its_literal_or_is_looked_up(host: HostAddr<'_>, lookup: MaybeReady)
    requires
        host.named_by(lookup),
    ensures
        host.v4 matches Some(ip) ==> names_one(lookup, IpAddr::V4(ip), host.port),
        host.v4 is None ==> (host.v6 matches Some(ip) ==> names_one(
            lookup,
            IpAddr::V6(ip),
            host.port,
        )),
        host.v4 is None && host.v6 is None ==> {
            &&& lookup.state is Blocking
            &&& lookup.state->Blocking_0 matches LookupRequest::HostPort(asked, port)
            &&& asked@ == host.host@
            &&& port == host.port
        },
{
}

/// Each IP address found becomes one socket address, in its place, with that very
/// address and the port; none is lost and none added.
pub proof fn every_address_found_gets_the_port(ips: Seq<IpAddr>, port: u16)
    ensures
        with_port(ips, port).len() == ips.len(),
        forall|i: int|
            0 <= i < ips.len() ==> match (ips[i], #[trigger] with_port(ips, port)[i]) {
                (IpAddr::V4(ip), SocketAddr::V4(a)) => a.ip == ip && a.port == port,
                (IpAddr::V6(ip), SocketAddr::V6(a)) => a.ip == ip && a.port == port && a.flowinfo
                    == 0 && a.scope_id == 0,
                _ => false,
            },
{
}

/// A lookup that ran as a task ends as the task did, with the same value or the
/// same error; only where the task did not come to an end is an error raised.
pub proof fn a_task_ends_as_it_returned<T, E>(
    end: Result<T, Failure<E>>,
    joined: Option<Result<T, E>>,
    message: Seq<char>,
)
    requires
        task_end(end, joined, message),
    ensures
        end is Ok <==> joined is Some && joined->0 is Ok,
        joined is Some && joined->0 is Ok ==> end->Ok_0 == joined->0->Ok_0,
        joined is Some && joined->0 is Err ==> end == Err::<T, Failure<E>>(
            Failure::Passed(joined->0->Err_0),
        ),
        joined is None ==> {
            &&& end matches Err(Failure::Raised(e))
            &&& e.kind == ErrorKind::InvalidInput
            &&& e.message@ == message
        },
{
}

/// One step of an attempt: every address that comes is tried, whatever its family
/// and whatever failed before; a success ends it with that value; a failure is
/// remembered and leads on; and where no address is left it ends with what failed
/// last, or with the lack of any address.
pub proof fn every_address_is_tried_and_every_outcome_counts<T, E>(
    last_err: Option<E>,
    addr: SocketAddr,
    value: T,
    err: E,
    next: Attempt<T, E>,
)
    ensures
        follows(last_err, AttemptEvent::Address(Some(addr)), next) <==> next == Attempt::<T, E>::Try(
            addr,
        ),
        follows(last_err, AttemptEvent::Outcome(Ok(value)), next) <==> next == Attempt::<
            T,
            E,
        >::Done(Ok(value)),
        follows(last_err, AttemptEvent::Outcome(Err(err)), next) <==> next is Next,
        follows(Some(err), AttemptEvent::Address(None), next) <==> next == Attempt::<T, E>::Done(
            Err(Failure::Passed(err)),
        ),
        follows(None, AttemptEvent::Address(None), next) ==> {
            &&& next matches Attempt::Done(Err(Failure::Raised(e)))
            &&& e.kind == ErrorKind::InvalidInput
            &&& e.message@ == "could not resolve to any addresses"@
        },
        last_err_after::<T, E>(last_err, AttemptEvent::Outcome(Err(err))) == Some(err),
        last_err_after::<T, E>(last_err, AttemptEvent::Address(Some(addr))) == last_err,
{
}

} // verus!
