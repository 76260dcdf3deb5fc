//! What goes over the wire, message by message.

use socks5_server::addr::{IpAddr, SocketAddr};
use socks5_server::auth::{AcceptAuthentication, DenyAuthentication, SimpleUserPassword};
use socks5_server::command::Socks5Command;
use socks5_server::config::Config;
use socks5_server::error::{Context, Fault, SocksError};
use socks5_server::protocol::{MethodChoice, Reading, Socks5ServerProtocol, Verdict};
use socks5_server::reply::{new_reply, ReplyError};
use socks5_server::states::{AuthMethodChosen, AuthMethodsRead, Authenticated, CommandRead, Opened};
use socks5_server::target::{read_address, AddressError, AddressReading, TargetAddr};
use socks5_server::udp::{
    handle_udp_request, handle_udp_response, new_udp_header, parse_udp_request, udp_resolved,
    UdpStep,
};

fn v4(ip: [u8; 4], port: u16) -> SocketAddr {
    SocketAddr::V4 { ip, port }
}

fn v6(ip: [u8; 16], port: u16) -> SocketAddr {
    SocketAddr::V6 { ip, port, flowinfo: 0, scope_id: 0 }
}

const LOCALHOST6: [u8; 16] = [0, 0, 0, 0, 0, 0, 0, 0, 0, 0, 0, 0, 0, 0, 0, 1];

fn opened() -> Socks5ServerProtocol<&'static str, Opened> {
    Socks5ServerProtocol::start("stream")
}

fn methods_read() -> Socks5ServerProtocol<&'static str, AuthMethodsRead> {
    match opened().get_methods(&[5, 1, 0]) {
        Reading::Done((protocol, _)) => protocol,
        _ => panic!("the methods are there"),
    }
}

fn method_chosen() -> Socks5ServerProtocol<&'static str, AuthMethodChosen> {
    let config = Config::<DenyAuthentication>::default();
    match methods_read().can_accept_method(vec![0], &config) {
        MethodChoice::Accepted { protocol, .. } => protocol,
        _ => panic!("there is no authentication"),
    }
}

fn authenticated() -> Socks5ServerProtocol<&'static str, Authenticated> {
    match method_chosen().answered(0, Some(())) {
        Verdict::Granted { protocol, .. } => protocol,
        _ => panic!("the client is let in"),
    }
}

fn command_read() -> Socks5ServerProtocol<&'static str, CommandRead> {
    match authenticated().read_command(&[5, 1, 0, 1, 10, 0, 0, 1, 0, 80]) {
        Reading::Done((protocol, _, _)) => protocol,
        _ => panic!("the request is there"),
    }
}

fn user() -> SimpleUserPassword {
    SimpleUserPassword { username: "ada".to_string(), password: "lovelace".to_string() }
}

#[test]
fn stream_is_carried_through_the_states() {
    let mut protocol = opened();
    *protocol.inner_mut() = "other";
    assert_eq!(protocol.into_inner(), "other");
}

#[test]
fn methods_are_asked_for_piece_by_piece() {
    match opened().get_methods(&[]) {
        Reading::More { protocol, count, failure } => {
            assert_eq!(protocol.into_inner(), "stream");
            assert_eq!(count, 2);
            assert_eq!(failure, SocksError::Other(Context::ReadMethods));
        }
        _ => panic!("two octets are missing"),
    }
    match opened().get_methods(&[5, 3]) {
        Reading::More { count, failure, .. } => {
            assert_eq!(count, 3);
            assert_eq!(failure, SocksError::Other(Context::GetMethods));
        }
        _ => panic!("three methods are missing"),
    }
    match opened().get_methods(&[5, 3, 0]) {
        Reading::More { count, .. } => assert_eq!(count, 2),
        _ => panic!("two methods are missing"),
    }
}

#[test]
fn methods_are_read() {
    match opened().get_methods(&[5, 3, 0, 1, 2]) {
        Reading::Done((protocol, methods)) => {
            assert_eq!(protocol.into_inner(), "stream");
            assert_eq!(methods, vec![0, 1, 2]);
        }
        _ => panic!("the methods are there"),
    }
}

#[test]
fn empty_methods_are_read() {
    match opened().get_methods(&[5, 0]) {
        Reading::Done((_, methods)) => assert_eq!(methods, Vec::<u8>::new()),
        _ => panic!("there is nothing more to read"),
    }
}

#[test]
fn methods_of_another_version_fail() {
    match opened().get_methods(&[4, 1]) {
        Reading::Failed(e) => assert_eq!(e, SocksError::UnsupportedSocksVersion(4)),
        _ => panic!("version 4 is not supported"),
    }
}

#[test]
fn password_is_chosen_when_offered() {
    let config = Config::<DenyAuthentication>::default().with_authentication(user());
    match methods_read().can_accept_method(vec![0, 1, 2], &config) {
        MethodChoice::Accepted { protocol, method, reply } => {
            assert_eq!(protocol.into_inner(), "stream");
            assert_eq!(method, 2);
            assert_eq!(reply, vec![5, 2]);
        }
        _ => panic!("the client offers a password"),
    }
}

#[test]
fn no_auth_is_chosen_without_an_authentication() {
    let config = Config::<DenyAuthentication>::default();
    for methods in [vec![0u8], vec![2, 0], vec![0, 1, 2]] {
        match methods_read().can_accept_method(methods, &config) {
            MethodChoice::Accepted { protocol, method, reply } => {
                assert_eq!(protocol.into_inner(), "stream");
                assert_eq!(method, 0);
                assert_eq!(reply, vec![5, 0]);
            }
            _ => panic!("there is no authentication"),
        }
    }
}

#[test]
fn method_that_was_not_offered_is_not_chosen() {
    let open = Config::<DenyAuthentication>::default();
    for methods in [vec![2u8], vec![1], vec![]] {
        match methods_read().can_accept_method(methods.clone(), &open) {
            MethodChoice::Refused { protocol, reply, error } => {
                assert_eq!(protocol.into_inner(), "stream");
                assert_eq!(reply, vec![5, 0xff]);
                assert_eq!(error, SocksError::AuthMethodUnacceptable(methods));
            }
            _ => panic!("the client does not offer to go without authentication"),
        }
    }
    let mut lenient = Config::<DenyAuthentication>::default().with_authentication(user());
    lenient.set_allow_no_auth(true);
    for methods in [vec![1u8], vec![]] {
        match methods_read().can_accept_method(methods.clone(), &lenient) {
            MethodChoice::Refused { reply, error, .. } => {
                assert_eq!(reply, vec![5, 0xff]);
                assert_eq!(error, SocksError::AuthMethodUnacceptable(methods));
            }
            _ => panic!("the client offers neither of the two methods"),
        }
    }
}

#[test]
fn no_auth_is_chosen_where_it_is_allowed() {
    let mut config = Config::<DenyAuthentication>::default().with_authentication(user());
    config.set_allow_no_auth(true);
    match methods_read().can_accept_method(vec![0, 1], &config) {
        MethodChoice::Accepted { method, reply, .. } => {
            assert_eq!(method, 0);
            assert_eq!(reply, vec![5, 0]);
        }
        _ => panic!("credentials may be left out"),
    }
}

#[test]
fn methods_without_password_are_refused() {
    let config = Config::<DenyAuthentication>::default().with_authentication(user());
    match methods_read().can_accept_method(vec![0, 1], &config) {
        MethodChoice::Refused { protocol, reply, error } => {
            assert_eq!(protocol.into_inner(), "stream");
            assert_eq!(reply, vec![5, 0xff]);
            assert_eq!(error, SocksError::AuthMethodUnacceptable(vec![0, 1]));
        }
        _ => panic!("a password is needed"),
    }
}

#[test]
fn credentials_are_asked_for_piece_by_piece() {
    let cases: Vec<(Vec<u8>, usize, Context)> = vec![
        (vec![], 2, Context::ReadUserLen),
        (vec![1, 3], 3, Context::GetUsername),
        (vec![1, 3, 97, 100], 1, Context::GetUsername),
        (vec![1, 3, 97, 100, 97], 1, Context::ReadPassLen),
        (vec![1, 3, 97, 100, 97, 2], 2, Context::GetPassword),
    ];
    for (received, expected, context) in cases {
        match method_chosen().read_username_password(&received) {
            Reading::More { protocol, count, failure } => {
                assert_eq!(protocol.into_inner(), "stream");
                assert_eq!(count, expected);
                assert_eq!(failure, SocksError::Other(context));
            }
            _ => panic!("the credentials are not complete"),
        }
    }
}

#[test]
fn credentials_are_read() {
    // the version may be any
    for version in [0u8, 1, 5] {
        match method_chosen().read_username_password(&[version, 3, 97, 100, 97, 2, 0xc3, 0xa9]) {
            Reading::Done((protocol, (username, password))) => {
                assert_eq!(protocol.into_inner(), "stream");
                assert_eq!(username, "ada");
                assert_eq!(password, "\u{e9}");
            }
            _ => panic!("the credentials are there"),
        }
    }
}

#[test]
fn empty_username_and_password_fail() {
    match method_chosen().read_username_password(&[1, 0]) {
        Reading::Failed(e) => assert_eq!(
            e,
            SocksError::AuthenticationFailed("Username malformed (0 chars)".to_string())
        ),
        _ => panic!("the username is empty"),
    }
    match method_chosen().read_username_password(&[1, 1, 97, 0]) {
        Reading::Failed(e) => assert_eq!(
            e,
            SocksError::AuthenticationFailed("Password malformed (0 chars)".to_string())
        ),
        _ => panic!("the password is empty"),
    }
}

#[test]
fn credentials_that_are_not_utf8_fail() {
    match method_chosen().read_username_password(&[1, 1, 0xff, 1, 97]) {
        Reading::Failed(e) => assert_eq!(e, SocksError::Other(Context::ConvertUsername)),
        _ => panic!("the username is not UTF-8"),
    }
    match method_chosen().read_username_password(&[1, 1, 97, 1, 0xff]) {
        Reading::Failed(e) => assert_eq!(e, SocksError::Other(Context::ConvertPassword)),
        _ => panic!("the password is not UTF-8"),
    }
    // an overlong encoding, a surrogate, and a text that breaks off
    for username in [vec![0xc0u8, 0x80], vec![0xed, 0xa0, 0x80], vec![0xe2, 0x82]] {
        let mut received = vec![1u8, username.len() as u8];
        received.extend_from_slice(&username);
        received.extend_from_slice(&[1, 97]);
        match method_chosen().read_username_password(&received) {
            Reading::Failed(e) => assert_eq!(e, SocksError::Other(Context::ConvertUsername)),
            _ => panic!("the username is not UTF-8"),
        }
    }
}

#[test]
fn answer_decides() {
    match method_chosen().answered(2, Some(7)) {
        Verdict::Granted { protocol, credentials, reply } => {
            assert_eq!(protocol.into_inner(), "stream");
            assert_eq!(credentials, 7);
            assert_eq!(reply, Some(vec![1, 0]));
        }
        _ => panic!("the client is let in"),
    }
    match method_chosen().answered(0, Some(7)) {
        Verdict::Granted { reply, .. } => assert_eq!(reply, None),
        _ => panic!("the client is let in"),
    }
    for method in [0u8, 2] {
        match method_chosen().answered(method, None::<u8>) {
            Verdict::Denied { protocol, reply, error } => {
                assert_eq!(protocol.into_inner(), "stream");
                assert_eq!(reply, vec![1, 0xff]);
                assert_eq!(
                    error,
                    SocksError::AuthenticationRejected("Authentication, rejected.".to_string())
                );
            }
            _ => panic!("the client is not let in"),
        }
    }
}

#[test]
fn authentication_is_asked() {
    let config = Config::<DenyAuthentication>::default().with_authentication(user());
    let right = Some(("ada".to_string(), "lovelace".to_string()));
    match method_chosen().authenticate(2, right, &config) {
        Ok(Verdict::Granted { credentials, reply, .. }) => {
            assert_eq!(credentials.username, "ada");
            assert_eq!(reply, Some(vec![1, 0]));
        }
        _ => panic!("these are the right credentials"),
    }
    let wrong = Some(("ada".to_string(), "byron".to_string()));
    match method_chosen().authenticate(2, wrong, &config) {
        Ok(Verdict::Denied { reply, .. }) => assert_eq!(reply, vec![1, 0xff]),
        _ => panic!("these are the wrong credentials"),
    }
    match method_chosen().authenticate(0, None, &config) {
        Ok(Verdict::Denied { reply, .. }) => assert_eq!(reply, vec![1, 0xff]),
        _ => panic!("there are no credentials"),
    }
}

#[test]
fn no_authentication_can_be_asked() {
    let config = Config::<AcceptAuthentication>::default();
    match method_chosen().authenticate(2, None, &config) {
        Err(e) => assert_eq!(e, SocksError::Other(Context::NoAuthModule)),
        Ok(_) => panic!("there is no authentication"),
    }
}

#[test]
fn requests_are_asked_for_piece_by_piece() {
    match authenticated().read_command(&[5]) {
        Reading::More { protocol, count, failure } => {
            assert_eq!(protocol.into_inner(), "stream");
            assert_eq!(count, 3);
            assert_eq!(failure, SocksError::Other(Context::MalformedRequest));
        }
        _ => panic!("three octets are missing"),
    }
    let cases: Vec<(Vec<u8>, usize)> = vec![
        (vec![5, 1, 0, 1], 4),
        (vec![5, 1, 0, 1, 10, 0, 0, 1], 2),
        (vec![5, 1, 0, 4], 16),
        (vec![5, 1, 0, 3], 1),
        (vec![5, 1, 0, 3, 7], 7),
        (vec![5, 1, 0, 3, 2, 97, 98], 2),
    ];
    for (received, expected) in cases {
        match authenticated().read_command(&received) {
            Reading::More { count, failure, .. } => {
                assert_eq!(count, expected);
                assert_eq!(
                    failure,
                    SocksError::ReplyError(ReplyError::AddressTypeNotSupported)
                );
            }
            _ => panic!("the request is not complete"),
        }
    }
}

#[test]
fn requests_are_read() {
    let cases: Vec<(Vec<u8>, Socks5Command, TargetAddr)> = vec![
        (
            vec![5, 1, 0, 1, 10, 0, 0, 1, 0x1f, 0x90],
            Socks5Command::TCPConnect,
            TargetAddr::Ip(v4([10, 0, 0, 1], 8080)),
        ),
        (
            vec![5, 2, 9, 4, 0, 0, 0, 0, 0, 0, 0, 0, 0, 0, 0, 0, 0, 0, 0, 1, 0, 80],
            Socks5Command::TCPBind,
            TargetAddr::Ip(v6(LOCALHOST6, 80)),
        ),
        (
            vec![5, 3, 0, 3, 4, 97, 46, 100, 101, 1, 187],
            Socks5Command::UDPAssociate,
            TargetAddr::Domain("a.de".to_string(), 443),
        ),
        (
            vec![5, 1, 0, 3, 0, 0, 0],
            Socks5Command::TCPConnect,
            TargetAddr::Domain(String::new(), 0),
        ),
    ];
    for (received, command, target) in cases {
        match authenticated().read_command(&received) {
            Reading::Done((protocol, c, t)) => {
                assert_eq!(protocol.into_inner(), "stream");
                assert_eq!(c, command);
                assert_eq!(t, target);
            }
            _ => panic!("the request is there"),
        }
    }
}

#[test]
fn bad_requests_fail() {
    let cases: Vec<(Vec<u8>, SocksError)> = vec![
        (vec![4, 1, 0, 1], SocksError::UnsupportedSocksVersion(4)),
        (vec![5, 0, 0, 1], SocksError::ReplyError(ReplyError::CommandNotSupported)),
        (vec![5, 4, 0, 1], SocksError::ReplyError(ReplyError::CommandNotSupported)),
        (vec![5, 1, 0, 2], SocksError::ReplyError(ReplyError::AddressTypeNotSupported)),
        (
            vec![5, 1, 0, 3, 1, 0xff],
            SocksError::ReplyError(ReplyError::AddressTypeNotSupported),
        ),
    ];
    for (received, error) in cases {
        match authenticated().read_command(&received) {
            Reading::Failed(e) => assert_eq!(e, error),
            _ => panic!("the request is bad"),
        }
    }
}

#[test]
fn commands_have_their_octets() {
    assert_eq!(Socks5Command::from_u8(1), Some(Socks5Command::TCPConnect));
    assert_eq!(Socks5Command::from_u8(2), Some(Socks5Command::TCPBind));
    assert_eq!(Socks5Command::from_u8(3), Some(Socks5Command::UDPAssociate));
    assert_eq!(Socks5Command::from_u8(0), None);
    assert_eq!(Socks5Command::from_u8(4), None);
}

#[test]
fn outcomes_have_their_codes() {
    let codes: Vec<(ReplyError, u8)> = vec![
        (ReplyError::Succeeded, 0),
        (ReplyError::GeneralFailure, 1),
        (ReplyError::ConnectionNotAllowed, 2),
        (ReplyError::NetworkUnreachable, 3),
        (ReplyError::HostUnreachable, 4),
        (ReplyError::ConnectionRefused, 5),
        (ReplyError::ConnectionTimeout, 6),
        (ReplyError::TtlExpired, 6),
        (ReplyError::CommandNotSupported, 7),
        (ReplyError::AddressTypeNotSupported, 8),
    ];
    for (error, code) in codes {
        assert_eq!(error.as_u8(), code);
    }
}

#[test]
fn replies_carry_the_address() {
    assert_eq!(
        new_reply(&ReplyError::Succeeded, v4([127, 0, 0, 1], 0)),
        vec![5, 0, 0, 1, 127, 0, 0, 1, 0, 0]
    );
    assert_eq!(
        new_reply(&ReplyError::ConnectionRefused, v6(LOCALHOST6, 0x1234)),
        vec![5, 5, 0, 4, 0, 0, 0, 0, 0, 0, 0, 0, 0, 0, 0, 0, 0, 0, 0, 1, 0x12, 0x34]
    );
}

#[test]
fn reply_can_be_read_back() {
    let reply = new_reply(&ReplyError::Succeeded, v6(LOCALHOST6, 1080));
    assert_eq!(
        read_address(reply[3], &reply[4..]),
        AddressReading::Done(TargetAddr::Ip(v6(LOCALHOST6, 1080)), reply.len() - 4)
    );
}

#[test]
fn protocol_replies() {
    let success = command_read().reply_success(v4([10, 0, 0, 1], 256));
    assert_eq!(success.inner, "stream");
    assert_eq!(success.bytes, vec![5, 0, 0, 1, 10, 0, 0, 1, 1, 0]);
    let error = command_read().reply_error(&ReplyError::CommandNotSupported);
    assert_eq!(error.inner, "stream");
    assert_eq!(error.bytes, vec![5, 7, 0, 1, 0, 0, 0, 0, 0, 0]);
}

#[test]
fn addresses_are_read_and_nothing_beyond_them() {
    assert_eq!(
        read_address(1, &[10, 0, 0, 1, 0, 80, 42]),
        AddressReading::Done(TargetAddr::Ip(v4([10, 0, 0, 1], 80)), 6)
    );
    assert_eq!(
        read_address(3, &[1, 97, 0, 80, 42, 43]),
        AddressReading::Done(TargetAddr::Domain("a".to_string(), 80), 4)
    );
    assert_eq!(read_address(4, &[0; 17]), AddressReading::More(1));
    assert_eq!(read_address(2, &[]), AddressReading::Failed(AddressError::Type(2)));
    assert_eq!(read_address(3, &[1, 0x80]), AddressReading::Failed(AddressError::Text));
}

#[test]
fn addresses_are_read_back_as_written() {
    let targets = vec![
        TargetAddr::Ip(v4([192, 168, 1, 2], 65535)),
        TargetAddr::Ip(v6(LOCALHOST6, 1)),
        TargetAddr::Domain("b\u{fc}cher.example".to_string(), 443),
        TargetAddr::Domain("x".repeat(255), 80),
    ];
    for target in targets {
        let bytes = target.to_be_bytes().unwrap();
        assert_eq!(
            read_address(bytes[0], &bytes[1..]),
            AddressReading::Done(target, bytes.len() - 1)
        );
    }
}

#[test]
fn addresses_have_their_octets() {
    assert_eq!(
        TargetAddr::Ip(v4([10, 0, 0, 1], 258)).to_be_bytes(),
        Ok(vec![1, 10, 0, 0, 1, 1, 2])
    );
    assert_eq!(
        TargetAddr::Domain("ab".to_string(), 80).to_be_bytes(),
        Ok(vec![3, 2, 97, 98, 0, 80])
    );
    assert_eq!(
        TargetAddr::Domain("x".repeat(256), 80).to_be_bytes(),
        Err(SocksError::ExceededMaxDomainLen(256))
    );
}

#[test]
fn only_addresses_can_be_connected_to() {
    let addr = v4([10, 0, 0, 1], 80);
    assert_eq!(TargetAddr::Ip(addr).to_socket_addr(), Ok(addr));
    assert_eq!(
        TargetAddr::Domain("a".to_string(), 80).to_socket_addr(),
        Err(SocksError::Io)
    );
}

#[test]
fn addresses_are_built_and_mapped() {
    let addr = SocketAddr::new(IpAddr::V4([10, 0, 0, 1]), 80);
    assert_eq!(addr, v4([10, 0, 0, 1], 80));
    assert_eq!(SocketAddr::new(IpAddr::V6(LOCALHOST6), 80), v6(LOCALHOST6, 80));
    let mapped = v6([0, 0, 0, 0, 0, 0, 0, 0, 0, 0, 0xff, 0xff, 10, 0, 0, 1], 80);
    assert_eq!(addr.over_ipv6(), mapped);
    assert_eq!(mapped.over_ipv6(), mapped);
    let scoped = SocketAddr::V6 { ip: LOCALHOST6, port: 80, flowinfo: 3, scope_id: 4 };
    assert_eq!(scoped.over_ipv6(), scoped);
}

#[test]
fn datagram_headers_are_written() {
    assert_eq!(
        new_udp_header(&TargetAddr::Ip(v4([10, 0, 0, 1], 53))),
        Ok(vec![0, 0, 0, 1, 10, 0, 0, 1, 0, 53])
    );
    assert_eq!(
        new_udp_header(&TargetAddr::Domain("x".repeat(300), 80)),
        Err(SocksError::ExceededMaxDomainLen(300))
    );
}

#[test]
fn datagrams_are_read_back_as_written() {
    let target = TargetAddr::Domain("ab".to_string(), 53);
    let mut datagram = new_udp_header(&target).unwrap();
    datagram.extend_from_slice(&[1, 2, 3]);
    let (frag, read, data) = parse_udp_request(&datagram).unwrap();
    assert_eq!(frag, 0);
    assert_eq!(read, target);
    assert_eq!(data, &[1, 2, 3]);
}

#[test]
fn bad_datagrams_fail() {
    let malformed = SocksError::Other(Context::MalformedRequest);
    assert_eq!(parse_udp_request(&[]).err(), Some(malformed));
    let malformed = SocksError::Other(Context::MalformedRequest);
    assert_eq!(parse_udp_request(&[0, 0, 0]).err(), Some(malformed));
    assert_eq!(
        parse_udp_request(&[0, 1]).err(),
        Some(SocksError::ReplyError(ReplyError::GeneralFailure))
    );
    assert_eq!(
        parse_udp_request(&[0, 0, 0, 1, 10, 0]).err(),
        Some(SocksError::ReplyError(ReplyError::AddressTypeNotSupported))
    );
    assert_eq!(
        handle_udp_request(&[0, 0, 0, 9]),
        Err(SocksError::ReplyError(ReplyError::AddressTypeNotSupported))
    );
}

#[test]
fn datagrams_go_where_the_client_wants() {
    let mapped = v6([0, 0, 0, 0, 0, 0, 0, 0, 0, 0, 0xff, 0xff, 10, 0, 0, 1], 53);
    assert_eq!(
        handle_udp_request(&[0, 0, 0, 1, 10, 0, 0, 1, 0, 53, 42]),
        Ok(UdpStep::Send(mapped, vec![42]))
    );
    assert_eq!(
        handle_udp_request(&[0, 0, 0, 3, 1, 97, 0, 53, 42]),
        Ok(UdpStep::Resolve("a".to_string(), 53, vec![42]))
    );
    assert_eq!(
        udp_resolved(v4([10, 0, 0, 1], 53), vec![42]),
        UdpStep::Send(mapped, vec![42])
    );
}

#[test]
fn fragments_end_the_relay() {
    assert_eq!(
        handle_udp_request(&[0, 0, 1, 1, 10, 0, 0, 1, 0, 53, 42]),
        Ok(UdpStep::Discard)
    );
}

#[test]
fn peers_are_named_to_the_client() {
    assert_eq!(
        handle_udp_response(v4([10, 0, 0, 1], 53), &[42, 43]),
        Ok(vec![0, 0, 0, 1, 10, 0, 0, 1, 0, 53, 42, 43])
    );
}

#[test]
fn failures_are_passed_on() {
    assert_eq!(Fault::Io.into_error(), SocksError::Io);
    assert_eq!(
        Fault::Reply(ReplyError::ConnectionRefused).into_error(),
        SocksError::ReplyError(ReplyError::ConnectionRefused)
    );
    assert_eq!(
        Fault::Other(Context::ResolveDns).into_error(),
        SocksError::Other(Context::ResolveDns)
    );
}

#[test]
fn steps_have_their_messages() {
    let messages: Vec<(Context, &str)> = vec![
        (Context::ReadMethods, "Can't read methods"),
        (Context::GetMethods, "Can't get methods."),
        (Context::ReplyMethodNotAcceptable, "Can't reply with method not acceptable."),
        (Context::ReplyMethod, "Can't reply with method auth-none"),
        (Context::ReadUserLen, "Can't read user len"),
        (Context::GetUsername, "Can't get username."),
        (Context::ReadPassLen, "Can't read pass len"),
        (Context::GetPassword, "Can't get password."),
        (Context::ConvertUsername, "Failed to convert username"),
        (Context::ConvertPassword, "Failed to convert password"),
        (Context::NoAuthModule, "No auth module"),
        (Context::ReplyAuthSuccess, "Can't reply auth success"),
        (Context::ReplyAuthNotAcceptable, "Can't reply with auth method not acceptable."),
        (Context::WriteSuccess, "Can't write successful reply"),
        (Context::WriteReply, "Can't write the reply!"),
        (Context::FlushReply, "Can't flush the reply!"),
        (Context::MalformedRequest, "Malformed request"),
        (Context::TargetAddrEmpty, "target_addr empty"),
        (Context::InvalidReplyIp, "invalid reply ip"),
        (Context::ResolveDns, "Can't resolve the domain name"),
    ];
    for (context, message) in messages {
        assert_eq!(context.message(), message);
    }
}
