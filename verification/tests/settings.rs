use uni_stream::dns::{
    get_custom_resolver, read_lock_error, resolver_error, set_custom_dns_server, write_lock_error,
    DnsServers, DNS_QUERY_PORT,
};
use uni_stream::error::ErrorKind;
use uni_stream::net::{IpAddr, Ipv4Addr, Ipv6Addr, SocketAddr};
use uni_stream::stream::{
    set_tcp_keep_alive, set_tcp_keep_alive_windows, BindStep, ListenerProvider, OpenStep,
    StreamProvider, TcpListenerProvider, TcpStreamProvider, UdpListenerProvider, UdpStreamProvider,
};
use uni_stream::timeout::{get_timeout_duration, set_custom_timeout, Duration, TimeoutSettings};

fn parts(d: &Duration) -> (u64, u32) {
    (d.as_secs(), d.subsec_nanos())
}

#[test]
fn default_timeout_is_twenty_seconds() {
    let mut settings = TimeoutSettings::new();
    assert_eq!(parts(&get_timeout_duration(&mut settings)), (20, 0));
}

#[test]
fn custom_timeout_is_used() {
    let mut settings = TimeoutSettings::new();
    set_custom_timeout(&mut settings, Duration::from_secs(4));
    set_custom_timeout(&mut settings, Duration::from_parts(5, 6).unwrap());
    assert_eq!(parts(&get_timeout_duration(&mut settings)), (5, 6));
}

#[test]
fn first_use_settles_the_timeout() {
    let mut settings = TimeoutSettings::new();
    assert_eq!(parts(&get_timeout_duration(&mut settings)), (20, 0));
    set_custom_timeout(&mut settings, Duration::from_secs(5));
    assert_eq!(parts(&get_timeout_duration(&mut settings)), (20, 0));
}

#[test]
fn durations_have_less_than_a_second_of_nanos() {
    assert!(Duration::from_parts(1, 1_000_000_000).is_none());
    let longest = Duration::from_parts(u64::MAX, 999_999_999).unwrap();
    assert_eq!(parts(&longest), (u64::MAX, 999_999_999));
}

/// The address, protocol and trust of each name server of the configuration.
fn asked(servers: &DnsServers) -> Vec<(String, String, bool)> {
    let config = get_custom_resolver(servers);
    assert!(config.domain().is_none());
    assert!(config.search().is_empty());
    config
        .name_servers()
        .iter()
        .map(|s| {
            (s.socket_addr.to_string(), s.protocol.to_string(), s.trust_negative_responses)
        })
        .collect()
}

fn twice(addr: &str) -> Vec<(String, String, bool)> {
    vec![
        (addr.to_string(), "udp".to_string(), true),
        (addr.to_string(), "tcp".to_string(), true),
    ]
}

#[test]
fn default_dns_servers() {
    assert_eq!(DNS_QUERY_PORT, 53);
    let expected = [
        twice("223.5.5.5:53"),
        twice("223.6.6.6:53"),
        twice("119.29.29.29:53"),
        twice("8.8.8.8:53"),
        twice("[2001:4860:4860::8888]:53"),
    ]
    .concat();
    assert_eq!(asked(&DnsServers::new()), expected);
}

#[test]
fn custom_dns_servers_replace_the_default() {
    let mut servers = DnsServers::new();
    let custom = [
        IpAddr::V6(Ipv6Addr { bits: 1 }),
        IpAddr::V4(Ipv4Addr::new(8, 8, 8, 8)),
    ];
    assert!(set_custom_dns_server(&mut servers, &custom).is_ok());
    assert_eq!(servers.as_slice(), &custom[..]);
    assert_eq!(asked(&servers), [twice("[::1]:53"), twice("8.8.8.8:53")].concat());
    assert!(set_custom_dns_server(&mut servers, &[]).is_ok());
    assert!(asked(&servers).is_empty());
}

#[test]
fn dns_errors_name_their_cause() {
    let errors = [
        (write_lock_error("poisoned"), "get dns server writer, detail:poisoned"),
        (read_lock_error("poisoned"), "read dns server ,detail:poisoned"),
        (resolver_error("no runtime"), "create custom resolver error:no runtime"),
    ];
    for (e, message) in errors {
        assert_eq!(e.kind, ErrorKind::InvalidInput);
        assert_eq!(e.message, message);
    }
}

#[test]
fn keepalive_parameters() {
    let text = format!("{:?}", set_tcp_keep_alive());
    assert!(text.contains("time: Some(20s)"), "{}", text);
    assert!(text.contains("interval: Some(20s)"), "{}", text);
    assert!(text.contains("retries: Some(3)"), "{}", text);
}

#[test]
fn keepalive_parameters_for_windows() {
    let text = format!("{:?}", set_tcp_keep_alive_windows());
    assert!(text.contains("time: Some(20s)"), "{}", text);
    assert!(text.contains("interval: Some(20s)"), "{}", text);
    assert!(text.contains("retries: None"), "{}", text);
}

#[test]
fn providers_open_their_own_protocol() {
    let peer = SocketAddr::new(IpAddr::V4(Ipv4Addr::new(10, 0, 0, 1)), 80);
    let local = SocketAddr::new(IpAddr::V4(Ipv4Addr { bits: 0 }), 0);
    assert_eq!(TcpStreamProvider::from_addr(peer), OpenStep::Tcp { peer });
    assert_eq!(UdpStreamProvider::from_addr(peer), OpenStep::Udp { local, peer });
    assert_eq!(TcpListenerProvider::bind(peer), BindStep::Tcp { local: peer });
    assert_eq!(UdpListenerProvider::bind(peer), BindStep::Udp { local: peer });
}
