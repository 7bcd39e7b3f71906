//! The DNS servers that hosts are looked up with.

use crate::error::{ErrorKind, NetError};
use crate::net::{parts, socket_addr, IpAddr, Ipv4Addr, Ipv6Addr, SocketAddr};
use trust_dns_resolver::config::{NameServerConfig, NameServerConfigGroup, ResolverConfig};
use vstd::prelude::*;

verus! {

/// The port that DNS servers answer on.
pub const DNS_QUERY_PORT: u16 = 53;

/// The IPv4 address `a.b.c.d`.
pub open spec fn v4(a: u8, b: u8, c: u8, d: u8) -> IpAddr {
    IpAddr::V4(Ipv4Addr { bits: (a * 0x100_0000 + b * 0x1_0000 + c * 0x100 + d) as u32 })
}

/// The servers asked where no others were set.
pub open spec fn default_servers() -> Seq<IpAddr> {
    seq![
        v4(223, 5, 5, 5),
        v4(223, 6, 6, 6),
        v4(119, 29, 29, 29),
        v4(8, 8, 8, 8),
        IpAddr::V6(Ipv6Addr { bits: 0x2001_4860_4860_0000_0000_0000_0000_8888 }),
    ]
}

/// The servers to ask, in order. The view is the list of them.
#[derive(Debug)]
pub struct DnsServers {
    servers: Vec<IpAddr>,
}

impl View for DnsServers {
    type V = Seq<IpAddr>;

    closed spec fn view(&self) -> Seq<IpAddr> {
        self.servers@
    }
}

impl DnsServers {
    /// The default servers.
    pub fn new() -> (servers: DnsServers)
        ensures
            servers@ == default_servers(),
    {
        let mut servers: Vec<IpAddr> = Vec::new();
        servers.push(IpAddr::V4(Ipv4Addr::new(223, 5, 5, 5)));
        servers.push(IpAddr::V4(Ipv4Addr::new(223, 6, 6, 6)));
        servers.push(IpAddr::V4(Ipv4Addr::new(119, 29, 29, 29)));
        servers.push(IpAddr::V4(Ipv4Addr::new(8, 8, 8, 8)));
        servers.push(IpAddr::V6(Ipv6Addr { bits: 0x2001_4860_4860_0000_0000_0000_0000_8888 }));
        assert(servers@ =~= default_servers());
        DnsServers { servers }
    }

    /// The servers as a slice.
    pub fn as_slice(&self) -> (servers: &[IpAddr])
        ensures
            servers@ == self@,
    {
        self.servers.as_slice()
    }
}

/// Sets the servers to ask, in the place of those set before.
pub fn set_custom_dns_server(servers: &mut DnsServers, dns_addrs: &[IpAddr]) -> (done: Result<
    (),
    NetError,
>)
    ensures
        done is Ok,
        final(servers)@ == dns_addrs@,
{
    servers.servers.clear();
    for i in 0..dns_addrs.len()
        invariant
            servers@ == dns_addrs@.take(i as int),
    {
        servers.servers.push(dns_addrs[i]);
        assert(dns_addrs@.take(i + 1) =~= dns_addrs@.take(i as int).push(dns_addrs@[i as int]));
    }
    assert(dns_addrs@.take(dns_addrs@.len() as int) =~= dns_addrs@);
    Ok(())
}

/// The servers could not be locked to be set, for this reason.
pub fn write_lock_error(detail: &str) -> (e: NetError)
    ensures
        e.says(ErrorKind::InvalidInput, "get dns server writer, detail:"@ + detail@),
{
    NetError::with_detail(ErrorKind::InvalidInput, "get dns server writer, detail:", detail)
}

/// The servers could not be locked to be read, for this reason.
pub fn read_lock_error(detail: &str) -> (e: NetError)
    ensures
        e.says(ErrorKind::InvalidInput, "read dns server ,detail:"@ + detail@),
{
    NetError::with_detail(ErrorKind::InvalidInput, "read dns server ,detail:", detail)
}

/// No resolver could be made, for this reason.
pub fn resolver_error(detail: &str) -> (e: NetError)
    ensures
        e.says(ErrorKind::InvalidInput, "create custom resolver error:"@ + detail@),
{
    NetError::with_detail(ErrorKind::InvalidInput, "create custom resolver error:", detail)
}

#[verifier::external_type_specification]
#[verifier::external_body]
pub struct ExNameServerConfig(NameServerConfig);

#[verifier::external_type_specification]
#[verifier::external_body]
pub struct ExNameServerConfigGroup(NameServerConfigGroup);

#[verifier::external_type_specification]
#[verifier::external_body]
pub struct ExResolverConfig(ResolverConfig);

/// The name servers of a group, in order: the address of each, whether it is
/// asked over TCP (otherwise over UDP), and whether its word that a name does not
/// exist is final.
pub uninterp spec fn group_servers(group: NameServerConfigGroup) -> Seq<(SocketAddr, bool, bool)>;

/// The name servers of a configuration, likewise.
pub uninterp spec fn config_servers(config: ResolverConfig) -> Seq<(SocketAddr, bool, bool)>;

/// Whether a configuration has domains that are appended to a name.
pub uninterp spec fn config_has_domains(config: ResolverConfig) -> bool;

/// Each IP address twice, on this port: over UDP, then over TCP.
pub open spec fn clear_servers(ips: Seq<IpAddr>, port: u16, trust: bool) -> Seq<
    (SocketAddr, bool, bool),
> {
    Seq::new(2 * ips.len(), |i: int| (socket_addr(ips[i / 2], port), i % 2 == 1, trust))
}

/// `NameServerConfigGroup::from_ips_clear`: for each IP address a server over
/// UDP and one over TCP, on the same port. That neither has a TLS name or an
/// address to connect from is left unsaid.
#[verifier::external_body]
fn name_servers(ips: &[IpAddr], port: u16, trust: bool) -> (group: NameServerConfigGroup)
    ensures
        group_servers(group) == clear_servers(ips@, port, trust),
{
    let mut plain = Vec::new();
    for ip in ips {
        plain.push(match ip {
            IpAddr::V4(ip) => ip.bits.to_be_bytes().into(),
            IpAddr::V6(ip) => ip.bits.to_be_bytes().into(),
        });
    }
    NameServerConfigGroup::from_ips_clear(&plain, port, trust)
}

/// `ResolverConfig::from_parts` without a local domain and without domains to
/// search: the name servers are those of the group.
#[verifier::external_body]
fn config_from_group(group: NameServerConfigGroup) -> (config: ResolverConfig)
    ensures
        config_servers(config) == group_servers(group),
        !config_has_domains(config),
{
    ResolverConfig::from_parts(None, Vec::new(), group)
}

/// The configuration of the resolver that asks these servers.
pub fn get_custom_resolver(servers: &DnsServers) -> (config: ResolverConfig)
    ensures
        config_servers(config) == clear_servers(servers@, DNS_QUERY_PORT, true),
        !config_has_domains(config),
        config_servers(config).len() == 2 * servers@.len(),
        forall|i: int|
            0 <= i < servers@.len() ==> {
                let udp = config_servers(config)[2 * i];
                let tcp = config_servers(config)[2 * i + 1];
                &&& parts(udp.0) == (#[trigger] servers@[i], 53u16) && !udp.1 && udp.2
                &&& parts(tcp.0) == (servers@[i], 53u16) && tcp.1 && tcp.2
            },
{
    config_from_group(name_servers(servers.as_slice(), DNS_QUERY_PORT, true))
}

/// The resolver asks the servers that were set and no others, each of them over
/// UDP and over TCP on the DNS port.
pub proof fn resolver_asks_exactly_the_servers_set(servers: Seq<IpAddr>, asked: SocketAddr, tcp: bool)
    ensures
        clear_servers(servers, DNS_QUERY_PORT, true).contains((asked, tcp, true)) <==> exists|
            i: int,
        |
            0 <= i < servers.len() && asked == socket_addr(#[trigger] servers[i], DNS_QUERY_PORT),
{
    let all = clear_servers(servers, DNS_QUERY_PORT, true);
    if all.contains((asked, tcp, true)) {
        let k = choose|k: int| 0 <= k < all.len() && all[k] == (asked, tcp, true);
        assert(asked == socket_addr(servers[k / 2], DNS_QUERY_PORT));
    }
    if exists|i: int|
        0 <= i < servers.len() && asked == socket_addr(#[trigger] servers[i], DNS_QUERY_PORT) {
        let i = choose|i: int|
            0 <= i < servers.len() && asked == socket_addr(#[trigger] servers[i], DNS_QUERY_PORT);
        let k = if tcp {
            2 * i + 1
        } else {
            2 * i
        };
        assert(all[k] == (asked, tcp, true));
    }
}

/// For each IP address, in its place, there are two servers, the first over UDP and
/// the second over TCP, both at that very address, on that port and with that
/// trust; and there are no others.
pub proof fn each_server_is_asked_both_ways(ips: Seq<IpAddr>, port: u16, trust: bool, i: int)
    requires
        0 <= i < ips.len(),
    ensures
        clear_servers(ips, port, trust).len() == 2 * ips.len(),
        ({
            let udp = clear_servers(ips, port, trust)[2 * i];
            let tcp = clear_servers(ips, port, trust)[2 * i + 1];
            &&& !udp.1 && tcp.1
            &&& udp.2 == trust && tcp.2 == trust
            &&& udp.0 == tcp.0
            &&& match (ips[i], udp.0) {
                (IpAddr::V4(ip), SocketAddr::V4(a)) => a.ip == ip && a.port == port,
                (IpAddr::V6(ip), SocketAddr::V6(a)) => a.ip == ip && a.port == port && a.flowinfo
                    == 0 && a.scope_id == 0,
                _ => false,
            }
        }),
{
    assert((2 * i) / 2 == i && (2 * i + 1) / 2 == i);
}

/// The servers asked where no others were set, as numbers.
pub proof fn the_default_servers(a: u8, b: u8, c: u8, d: u8)
    ensures
        v4(a, b, c, d) matches IpAddr::V4(ip) && ip.bits == a * 0x100_0000 + b * 0x1_0000 + c
            * 0x100 + d,
        default_servers().len() == 5,
        default_servers()[0] == v4(223, 5, 5, 5),
        default_servers()[1] == v4(223, 6, 6, 6),
        default_servers()[2] == v4(119, 29, 29, 29),
        default_servers()[3] == v4(8, 8, 8, 8),
        default_servers()[4] matches IpAddr::V6(ip) && ip.bits
            == 0x2001_4860_4860_0000_0000_0000_0000_8888,
{
}

} // verus!
