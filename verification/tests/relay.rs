//! Datagrams that are relayed, one after the other.

use socks5_server::addr::SocketAddr;
use socks5_server::error::{Context, Fault, SocksError};
use socks5_server::relay::{UdpAction, UdpEvent, UdpProgress, UdpRelay};
use socks5_server::reply::ReplyError;
use socks5_server::target::TargetAddr;
use socks5_server::udp::{handle_udp_response, parse_udp_request};

fn v4(ip: [u8; 4], port: u16) -> SocketAddr {
    SocketAddr::V4 { ip, port }
}

fn mapped(ip: [u8; 4], port: u16) -> SocketAddr {
    v4(ip, port).over_ipv6()
}

/// A datagram for 10.0.0.1, port 53.
fn to_ip(data: u8) -> Vec<u8> {
    vec![0, 0, 0, 1, 10, 0, 0, 1, 0, 53, data]
}

/// A datagram for the domain name `name`, port 53.
fn to_domain(name: u8, data: u8) -> Vec<u8> {
    vec![0, 0, 0, 3, 1, name, 0, 53, data]
}

fn pending(progress: UdpProgress) -> UdpRelay {
    match progress {
        UdpProgress::Pending(relay) => relay,
        _ => panic!("the relay goes on"),
    }
}

/// How the relay ended, what was looked up, and what was sent. The domain name `a` is found
/// at 1.1.1.1, every other one at 2.2.2.2.
fn relay(
    datagrams: Vec<Vec<u8>>,
) -> (Result<(), SocksError>, Vec<String>, Vec<(SocketAddr, Vec<u8>)>) {
    let mut incoming = datagrams.into_iter();
    let mut looked_up: Vec<String> = Vec::new();
    let mut sent: Vec<(SocketAddr, Vec<u8>)> = Vec::new();
    let mut relay = UdpRelay::start();
    loop {
        let event = match relay.action() {
            UdpAction::Receive => match incoming.next() {
                Some(datagram) => UdpEvent::Received(datagram),
                None => UdpEvent::Failed(Fault::Io),
            },
            UdpAction::ResolveDns(name, port) => {
                let ip = if name == "a" { [1, 1, 1, 1] } else { [2, 2, 2, 2] };
                looked_up.push(name);
                UdpEvent::Resolved(v4(ip, port))
            }
            UdpAction::Send(addr, data) => {
                sent.push((addr, data));
                UdpEvent::Sent
            }
        };
        relay = match relay.resume(event) {
            UdpProgress::Pending(relay) => relay,
            UdpProgress::Finished => return (Ok(()), looked_up, sent),
            UdpProgress::Failed(e) => return (Err(e), looked_up, sent),
        };
    }
}

#[test]
fn datagrams_are_sent_in_their_order() {
    let (end, looked_up, sent) =
        relay(vec![to_domain(97, 1), to_ip(2), to_domain(98, 3), to_ip(4)]);
    assert_eq!(end, Err(SocksError::Io));
    assert_eq!(looked_up, vec!["a".to_string(), "b".to_string()]);
    assert_eq!(
        sent,
        vec![
            (mapped([1, 1, 1, 1], 53), vec![1]),
            (mapped([10, 0, 0, 1], 53), vec![2]),
            (mapped([2, 2, 2, 2], 53), vec![3]),
            (mapped([10, 0, 0, 1], 53), vec![4]),
        ]
    );
}

#[test]
fn relay_finishes_at_a_fragment() {
    let mut fragment = to_ip(2);
    fragment[2] = 1;
    let (end, _, sent) = relay(vec![to_ip(1), fragment, to_ip(3)]);
    assert_eq!(end, Ok(()));
    assert_eq!(sent, vec![(mapped([10, 0, 0, 1], 53), vec![1])]);
}

#[test]
fn relay_fails_over_a_bad_datagram() {
    let (end, _, sent) = relay(vec![to_ip(1), vec![0, 0], to_ip(3)]);
    assert_eq!(end, Err(SocksError::Other(Context::MalformedRequest)));
    assert_eq!(sent, vec![(mapped([10, 0, 0, 1], 53), vec![1])]);
    let (end, _, sent) = relay(vec![vec![1, 0]]);
    assert_eq!(end, Err(SocksError::ReplyError(ReplyError::GeneralFailure)));
    assert_eq!(sent, vec![]);
}

#[test]
fn relay_fails_over_a_failed_action() {
    let resolving = pending(UdpRelay::start().resume(UdpEvent::Received(to_domain(97, 1))));
    assert_eq!(resolving.action(), UdpAction::ResolveDns("a".to_string(), 53));
    match resolving.resume(UdpEvent::Failed(Fault::Other(Context::ResolveDns))) {
        UdpProgress::Failed(e) => assert_eq!(e, SocksError::Other(Context::ResolveDns)),
        _ => panic!("the lookup failed"),
    }
    let sending = pending(UdpRelay::start().resume(UdpEvent::Received(to_ip(1))));
    match sending.resume(UdpEvent::Failed(Fault::Io)) {
        UdpProgress::Failed(e) => assert_eq!(e, SocksError::Io),
        _ => panic!("the data was not sent"),
    }
}

#[test]
fn udp_event_that_does_not_fit_changes_nothing() {
    let relay = pending(UdpRelay::start().resume(UdpEvent::Sent));
    let relay = pending(relay.resume(UdpEvent::Resolved(v4([1, 2, 3, 4], 5))));
    assert_eq!(relay.action(), UdpAction::Receive);
    let relay = pending(relay.resume(UdpEvent::Received(to_domain(97, 1))));
    let relay = pending(relay.resume(UdpEvent::Received(to_ip(2))));
    assert_eq!(relay.action(), UdpAction::ResolveDns("a".to_string(), 53));
}

#[test]
fn responses_are_read_in_their_order() {
    for (octet, data) in [(1u8, vec![7u8]), (2, vec![]), (3, vec![8, 9])] {
        let peer = v4([10, 0, 0, octet], 53);
        let datagram = handle_udp_response(peer, &data).unwrap();
        let (frag, target, read) = parse_udp_request(&datagram).unwrap();
        assert_eq!(frag, 0);
        assert_eq!(target, TargetAddr::Ip(peer));
        assert_eq!(read, &data[..]);
    }
}
