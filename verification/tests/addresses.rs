use uni_stream::addr::{
    each_addr, get_ip_addrs, get_ip_addrs_inner, get_socket_addrs,
    get_socket_addrs_from_host_port, get_socket_addrs_from_host_port_inner, Attempt,
    AttemptEvent, HostAddr, HostLookup, LookupRequest, MaybeReady, OneOrMore, State, TextAddr, ToSocketAddrs,
};
use uni_stream::error::{ErrorKind, Failure, NetError};
use uni_stream::host_port::{get_socket_addrs_inner, parse_port, rsplit_colon};
use uni_stream::net::{IpAddr, Ipv4Addr, Ipv6Addr, SocketAddr, SocketAddrV4, SocketAddrV6};
use uni_stream::read::Polled;
use uni_stream::stream::got_one_socket_addr;

fn v4(d: u8, port: u16) -> SocketAddr {
    SocketAddr::new(IpAddr::V4(Ipv4Addr::new(10, 0, 0, d)), port)
}

fn drain(mut addrs: OneOrMore) -> Vec<SocketAddr> {
    let mut all = Vec::new();
    while let Some(addr) = addrs.next() {
        all.push(addr);
    }
    all
}

fn known(mut lookup: MaybeReady) -> Vec<SocketAddr> {
    match lookup.poll::<()>(Polled::Pending) {
        Polled::Ready(Ok(addrs)) => drain(addrs),
        _ => panic!("the lookup is not ready"),
    }
}

fn local(e: NetError, kind: ErrorKind, message: &str) {
    assert_eq!(e.kind, kind);
    assert_eq!(e.message, message);
}

#[test]
fn ipv4_octets_are_big_endian() {
    assert_eq!(Ipv4Addr::new(127, 0, 0, 1).bits, 0x7f00_0001);
    assert_eq!(Ipv4Addr::new(223, 5, 5, 5).bits, 3_741_648_133);
}

#[test]
fn keys_of_different_addresses_differ() {
    let v6 = |flowinfo: u32, scope_id: u32| {
        SocketAddr::V6(SocketAddrV6::new(Ipv6Addr { bits: 0x0a00_0001 }, 80, flowinfo, scope_id))
    };
    let addrs = [v4(1, 80), v4(2, 80), v4(1, 81), v6(0, 0), v6(1, 0), v6(0, 1)];
    for (i, a) in addrs.iter().enumerate() {
        for (j, b) in addrs.iter().enumerate() {
            assert_eq!(a.key() == b.key(), i == j);
        }
    }
    assert_eq!(v4(1, 80).key(), (false, 0x0a00_0001, 80, 0, 0));
}

#[test]
fn direct_addresses_are_known_at_once() {
    let ip = Ipv4Addr::new(1, 2, 3, 4);
    let ip6 = Ipv6Addr { bits: 1 };
    let four = SocketAddr::V4(SocketAddrV4::new(ip, 7));
    let six = SocketAddr::V6(SocketAddrV6::new(ip6, 7, 0, 0));
    let scoped = SocketAddrV6::new(ip6, 7, 8, 9);
    assert_eq!(known(four.to_socket_addrs()), vec![four]);
    assert_eq!(known((&four).to_socket_addrs()), vec![four]);
    assert_eq!(known(SocketAddrV4::new(ip, 7).to_socket_addrs()), vec![four]);
    assert_eq!(known(scoped.to_socket_addrs()), vec![SocketAddr::V6(scoped)]);
    assert_eq!(known((IpAddr::V4(ip), 7).to_socket_addrs()), vec![four]);
    assert_eq!(known((IpAddr::V6(ip6), 7).to_socket_addrs()), vec![six]);
    assert_eq!(known((ip, 7).to_socket_addrs()), vec![four]);
    assert_eq!(known((ip6, 7).to_socket_addrs()), vec![six]);
}

#[test]
fn lists_keep_their_order() {
    let list = [v4(3, 1), v4(1, 2), v4(2, 3), v4(1, 2)];
    assert_eq!(known((&list[..]).to_socket_addrs()), list.to_vec());
    let empty: &[SocketAddr] = &[];
    assert_eq!(known(empty.to_socket_addrs()), Vec::new());
}

#[test]
fn known_addresses_are_handed_out_once() {
    let mut lookup = v4(1, 2).to_socket_addrs();
    match lookup.poll::<()>(Polled::Pending) {
        Polled::Ready(Ok(addrs)) => assert_eq!(drain(addrs), vec![v4(1, 2)]),
        _ => panic!("the lookup is not ready"),
    }
    assert_eq!(known(lookup), Vec::new());
}

#[test]
fn texts_are_looked_up_unless_they_are_literal() {
    let literal = TextAddr { text: "10.0.0.1:80", literal: Some(v4(1, 80)) };
    assert_eq!(known(literal.to_socket_addrs()), vec![v4(1, 80)]);
    let lookup = TextAddr { text: "example.org:80", literal: None }.to_socket_addrs();
    match lookup.state {
        State::Blocking(request) => {
            assert!(matches!(&request, LookupRequest::Text(text) if text == "example.org:80"));
            assert_eq!(request.host_port().unwrap(), ("example.org", 80));
        }
        State::Ready(_) => panic!("a host cannot be known"),
    }
}

#[test]
fn hosts_are_looked_up_unless_they_are_literal() {
    let ip = Ipv4Addr::new(10, 0, 0, 1);
    let ip6 = Ipv6Addr { bits: 5 };
    let both = HostAddr { host: "x", port: 9, v4: Some(ip), v6: Some(ip6) };
    assert_eq!(known(both.to_socket_addrs()), vec![v4(1, 9)]);
    let six = HostAddr { host: "::5", port: 9, v4: None, v6: Some(ip6) };
    assert_eq!(
        known(six.to_socket_addrs()),
        vec![SocketAddr::V6(SocketAddrV6::new(ip6, 9, 0, 0))]
    );
    let lookup = HostAddr { host: "example.org", port: 9, v4: None, v6: None }.to_socket_addrs();
    match lookup.state {
        State::Blocking(request) => {
            assert_eq!(request.host_port().unwrap(), ("example.org", 9));
        }
        State::Ready(_) => panic!("a host cannot be known"),
    }
}

#[test]
fn blocking_lookup_waits_for_its_task() {
    let mut lookup = TextAddr { text: "h:1", literal: None }.to_socket_addrs();
    assert!(matches!(lookup.poll::<u8>(Polled::Pending), Polled::Pending));
    assert!(matches!(lookup.poll(Polled::Ready(Err(7u8))), Polled::Ready(Err(7))));
    match lookup.poll::<u8>(Polled::Ready(Ok(vec![v4(2, 1), v4(1, 1)]))) {
        Polled::Ready(Ok(addrs)) => {
            assert!(matches!(addrs, OneOrMore::More(_)));
            assert_eq!(addrs.size_hint(), (2, Some(2)));
            assert_eq!(drain(addrs), vec![v4(2, 1), v4(1, 1)]);
        }
        _ => panic!("the task is done"),
    }
}

#[test]
fn size_hint_counts_what_is_left() {
    let mut one = OneOrMore::One(Some(v4(1, 1)));
    assert_eq!(one.size_hint(), (1, Some(1)));
    assert_eq!(one.next(), Some(v4(1, 1)));
    assert_eq!(one.size_hint(), (0, Some(0)));
    assert_eq!(one.next(), None);
    let mut more = OneOrMore::more(&[v4(1, 1), v4(2, 2), v4(3, 3)]);
    more.next();
    assert_eq!(more.size_hint(), (2, Some(2)));
}

#[test]
fn ports_are_decimal() {
    assert_eq!(parse_port("0"), Some(0));
    assert_eq!(parse_port("80"), Some(80));
    assert_eq!(parse_port("+80"), Some(80));
    assert_eq!(parse_port("00080"), Some(80));
    assert_eq!(parse_port("65535"), Some(65535));
    for text in ["", "+", "-1", "65536", "99999999999", "8o", " 80", "80 ", "++1", "\u{0661}", "1_0"] {
        assert_eq!(parse_port(text), None, "{}", text);
    }
}

#[test]
fn ports_are_read_as_std_reads_them() {
    for text in ["", "+", "-", "-0", "+0", "7", "65535", "65536", "000", "+00012", "1+", "a", "\u{1d7d8}"] {
        assert_eq!(parse_port(text), text.parse::<u16>().ok(), "{}", text);
    }
}

#[test]
fn texts_split_at_the_last_colon() {
    assert_eq!(rsplit_colon("bilibili.com:1080"), Some(("bilibili.com", "1080")));
    assert_eq!(rsplit_colon("::1:80"), Some(("::1", "80")));
    assert_eq!(rsplit_colon(":"), Some(("", "")));
    assert_eq!(rsplit_colon("b\u{fc}cher:x"), Some(("b\u{fc}cher", "x")));
    assert_eq!(rsplit_colon("host"), None);
    assert_eq!(rsplit_colon(""), None);
}

#[test]
fn host_and_port_texts() {
    assert_eq!(get_socket_addrs_inner("bilibili.com:1080").unwrap(), ("bilibili.com", 1080));
    let e = get_socket_addrs_inner("bilibili.com").unwrap_err();
    local(e, ErrorKind::InvalidInput, "invalid socket address");
    let e = get_socket_addrs_inner("bilibili.com:http").unwrap_err();
    local(e, ErrorKind::InvalidInput, "invalid port value");
    let e = get_socket_addrs_inner("bilibili.com:65536").unwrap_err();
    local(e, ErrorKind::InvalidInput, "invalid port value");
}

#[test]
fn any_host_and_port_read_back() {
    for host in ["a", "", "::", "x:y", "example.org"] {
        for port in [0u16, 7, 53, 10_000, 65_535] {
            let text = format!("{}:{}", host, port);
            assert_eq!(get_socket_addrs_inner(&text).unwrap(), (host, port));
        }
    }
}

#[test]
fn custom_resolver_answers() {
    let ips = vec![IpAddr::V4(Ipv4Addr::new(1, 1, 1, 1))];
    assert_eq!(get_ip_addrs_inner::<()>(Some(Ok(ips.clone()))).unwrap(), ips);
    match get_ip_addrs_inner(Some(Err("no record found"))) {
        Err(Failure::Caused { kind, cause }) => {
            assert_eq!((kind, cause), (ErrorKind::InvalidInput, "no record found"))
        }
        _ => panic!("the lookup failed"),
    }
    match get_ip_addrs_inner::<()>(None) {
        Err(Failure::Raised(e)) => {
            local(e, ErrorKind::InvalidInput, "custom resolver not exist")
        }
        _ => panic!("there is no resolver"),
    }
}

#[test]
fn resolved_addresses_get_the_port() {
    let ip = Ipv4Addr::new(10, 0, 0, 1);
    let ip6 = Ipv6Addr { bits: 6 };
    let found = get_ip_addrs_inner::<()>(Some(Ok(vec![IpAddr::V4(ip), IpAddr::V6(ip6)])));
    match get_socket_addrs_from_host_port_inner(found, 443) {
        HostLookup::Resolved(addrs) => assert_eq!(
            addrs,
            vec![v4(1, 443), SocketAddr::V6(SocketAddrV6::new(ip6, 443, 0, 0))]
        ),
        HostLookup::AskSystem => panic!("the custom resolver answered"),
    }
    let failed = get_ip_addrs_inner::<()>(None);
    assert!(matches!(
        get_socket_addrs_from_host_port_inner(failed, 443),
        HostLookup::AskSystem
    ));
}

#[test]
fn lookup_tasks_end() {
    assert_eq!(get_ip_addrs::<()>(Some(Ok(vec![]))).unwrap(), vec![]);
    assert!(matches!(get_socket_addrs(Some(Err(3))), Err(Failure::Passed(3))));
    let addrs = get_socket_addrs_from_host_port::<()>(Some(Ok(vec![v4(1, 1)])));
    assert_eq!(addrs.unwrap(), vec![v4(1, 1)]);
    match get_ip_addrs::<()>(None) {
        Err(Failure::Raised(e)) => local(e, ErrorKind::InvalidInput, "get ip addrs"),
        _ => panic!("the task is gone"),
    }
    match get_socket_addrs::<()>(None) {
        Err(Failure::Raised(e)) => local(e, ErrorKind::InvalidInput, "get socket addrs"),
        _ => panic!("the task is gone"),
    }
    match get_socket_addrs_from_host_port::<()>(None) {
        Err(Failure::Raised(e)) => {
            local(e, ErrorKind::InvalidInput, "get socket addrs from host port")
        }
        _ => panic!("the task is gone"),
    }
}

/// Tries the addresses, the one at `i` with the outcome at `i`.
fn attempt(
    addrs: impl Iterator<Item = SocketAddr>,
    outcomes: Vec<Result<u8, u8>>,
) -> (Vec<SocketAddr>, Result<u8, Failure<u8>>) {
    let (mut addrs, mut attempts) = each_addr(Ok(addrs)).unwrap();
    let mut outcomes = outcomes.into_iter();
    let mut tried = Vec::new();
    let mut event = AttemptEvent::Address(addrs.next());
    loop {
        event = match attempts.step(event) {
            Attempt::Next => AttemptEvent::Address(addrs.next()),
            Attempt::Try(addr) => {
                tried.push(addr);
                AttemptEvent::Outcome(outcomes.next().unwrap())
            }
            Attempt::Done(end) => return (tried, end),
        };
    }
}

#[test]
fn endless_lookup_ends_with_a_success() {
    let (tried, end) = attempt((1u16..).map(|port| v4(1, port)), vec![Err(1), Err(2), Ok(3)]);
    assert_eq!(tried, vec![v4(1, 1), v4(1, 2), v4(1, 3)]);
    assert!(matches!(end, Ok(3)));
}

#[test]
fn first_success_ends_the_attempts() {
    let addrs = [v4(1, 1), v4(2, 2), v4(3, 3)];
    let (tried, end) = attempt(addrs.into_iter(), vec![Err(1), Ok(2), Ok(3)]);
    assert_eq!(tried, addrs[..2].to_vec());
    assert!(matches!(end, Ok(2)));
}

#[test]
fn last_error_ends_the_attempts() {
    let addrs = [v4(1, 1), v4(2, 2), v4(3, 3)];
    let (tried, end) = attempt(addrs.into_iter(), vec![Err(1), Err(2), Err(3)]);
    assert_eq!(tried, addrs.to_vec());
    assert!(matches!(end, Err(Failure::Passed(3))));
}

#[test]
fn no_address_is_invalid_input() {
    let (tried, end) = attempt(std::iter::empty(), vec![]);
    assert!(tried.is_empty());
    match end {
        Err(Failure::Raised(e)) => {
            local(e, ErrorKind::InvalidInput, "could not resolve to any addresses")
        }
        _ => panic!("there is nothing to try"),
    }
    assert!(matches!(each_addr::<(), u8>(Err(4)), Err(4)));
}

#[test]
fn one_socket_address_is_the_first() {
    let addrs = OneOrMore::more(&[v4(2, 1), v4(1, 1)]);
    assert_eq!(got_one_socket_addr::<()>(Ok(addrs)).unwrap(), v4(2, 1));
    assert!(matches!(got_one_socket_addr(Err(5)), Err(Failure::Passed(5))));
    match got_one_socket_addr::<()>(Ok(OneOrMore::One(None))) {
        Err(Failure::Raised(e)) => {
            local(e, ErrorKind::InvalidInput, "could not resolve to any addresses")
        }
        _ => panic!("there is no address"),
    }
}
