//! Clients that are served from the first octet to the last.

use socks5_server::addr::{IpAddr, SocketAddr};
use socks5_server::auth::{
    AcceptAuthentication, Authentication, DenyAuthentication, SimpleUserPassword,
};
use socks5_server::command::Socks5Command;
use socks5_server::config::Config;
use socks5_server::error::{Context, Fault, SocksError};
use socks5_server::reply::ReplyError;
use socks5_server::socket::Socks5Socket;
use socks5_server::target::TargetAddr;
use socks5_server::upgrade::{Action, Event, Progress};
use std::cell::RefCell;
use std::rc::Rc;
use std::sync::Arc;

/// The stream to a client: what it sends, and what it was sent.
struct Wire {
    input: Vec<u8>,
    at: usize,
    output: Vec<u8>,
}

type Stream = Rc<RefCell<Wire>>;

/// What the network does.
#[derive(Clone)]
struct Net {
    /// The action that fails, counted from zero, and how.
    failing: Option<(usize, Fault)>,
    /// What every domain name is resolved to.
    addr: SocketAddr,
    /// The port of the UDP socket.
    port: u16,
}

/// How a client fared.
struct Outcome<A: Authentication> {
    result: Result<Socks5Socket<Stream, A>, SocksError>,
    /// What was done, apart from reading from the client and writing to it.
    actions: Vec<Action>,
    /// How many actions there were.
    steps: usize,
    output: Vec<u8>,
    /// How much of what the client sent was read.
    read: usize,
}

fn quiet() -> Net {
    Net { failing: None, addr: v4([93, 184, 216, 34], 80), port: 5353 }
}

fn failing(step: usize, fault: Fault) -> Net {
    Net { failing: Some((step, fault)), ..quiet() }
}

fn v4(ip: [u8; 4], port: u16) -> SocketAddr {
    SocketAddr::V4 { ip, port }
}

fn perform<A: Authentication>(
    config: &Config<A>,
    action: Action,
    stream: &Stream,
    net: &Net,
) -> Event<A::Item> {
    let mut wire = stream.borrow_mut();
    match action {
        Action::ReadExact(count) => {
            let at = wire.at;
            if wire.input.len() - at < count {
                return Event::Failed(Fault::Io);
            }
            wire.at = at + count;
            Event::Read(wire.input[at..at + count].to_vec())
        }
        Action::Write(bytes) | Action::WriteAll(bytes) => {
            wire.output.extend_from_slice(&bytes);
            Event::Done
        }
        Action::Authenticate(credentials) => {
            Event::Answer(config.auth().unwrap().authenticate(credentials))
        }
        Action::ResolveDns(..) => Event::Resolved(net.addr),
        Action::LocalPort => Event::Port(net.port),
        _ => Event::Done,
    }
}

fn drive<A: Authentication>(
    socket: Socks5Socket<Stream, A>,
    stream: &Stream,
    net: &Net,
) -> Outcome<A> {
    let mut actions: Vec<Action> = Vec::new();
    let mut steps: usize = 0;
    let mut progress = socket.upgrade_to_socks5();
    let result = loop {
        let mut upgrade = match progress {
            Progress::Pending(upgrade) => upgrade,
            Progress::Finished(socket) => break Ok(socket),
            Progress::Failed(e) => break Err(e),
        };
        let action = upgrade.action();
        let event = match net.failing {
            Some((step, fault)) if step == steps => Event::Failed(fault),
            _ => {
                let stream = upgrade.stream_mut().clone();
                perform(upgrade.config(), upgrade.action(), &stream, net)
            }
        };
        match action {
            Action::ReadExact(_) | Action::Write(_) | Action::WriteAll(_) => {}
            other => actions.push(other),
        }
        steps += 1;
        progress = upgrade.resume(event);
    };
    let wire = stream.borrow();
    Outcome { result, actions, steps, output: wire.output.clone(), read: wire.at }
}

fn serve_with_ip<A: Authentication>(
    config: Config<A>,
    input: &[u8],
    reply_ip: Option<IpAddr>,
    net: &Net,
) -> Outcome<A> {
    let stream: Stream =
        Rc::new(RefCell::new(Wire { input: input.to_vec(), at: 0, output: Vec::new() }));
    let mut socket = Socks5Socket::new(stream.clone(), Arc::new(config));
    if let Some(ip) = reply_ip {
        socket.set_reply_ip(ip);
    }
    drive(socket, &stream, net)
}

fn serve<A: Authentication>(config: Config<A>, input: &[u8]) -> Outcome<A> {
    serve_with_ip(config, input, None, &quiet())
}

fn open_config() -> Config<DenyAuthentication> {
    Config::default()
}

fn password_config() -> Config<SimpleUserPassword> {
    open_config().with_authentication(SimpleUserPassword {
        username: "ada".to_string(),
        password: "pw".to_string(),
    })
}

fn udp_config() -> Config<DenyAuthentication> {
    let mut config = open_config();
    config.set_udp_support(true);
    config
}

fn skip_config() -> Config<DenyAuthentication> {
    let mut config = open_config();
    config.set_skip_auth(true);
    config
}

fn joined(parts: &[&[u8]]) -> Vec<u8> {
    let mut all: Vec<u8> = Vec::new();
    for part in parts {
        all.extend_from_slice(part);
    }
    all
}

const HELLO: &[u8] = &[5, 1, 0];
const HELLO_PASSWORD: &[u8] = &[5, 3, 0, 1, 2];
const LOGIN: &[u8] = &[1, 3, 97, 100, 97, 2, 112, 119];
const CONNECT: &[u8] = &[5, 1, 0, 1, 10, 0, 0, 1, 0, 80];
const CONNECT_DOMAIN: &[u8] = &[5, 1, 0, 3, 4, 97, 46, 100, 101, 0, 80];
const BIND: &[u8] = &[5, 2, 0, 1, 10, 0, 0, 1, 0, 80];
const ASSOCIATE: &[u8] = &[5, 3, 0, 1, 0, 0, 0, 0, 0, 0];
const CONNECTED: &[u8] = &[5, 0, 0, 1, 127, 0, 0, 1, 0, 0];
const NOT_SUPPORTED: &[u8] = &[5, 7, 0, 1, 0, 0, 0, 0, 0, 0];

#[test]
fn client_is_connected() {
    let out = serve(open_config(), &joined(&[HELLO, CONNECT, &[42, 43]]));
    assert_eq!(out.output, joined(&[&[5, 0], CONNECTED]));
    // what follows the request is left for the relay
    assert_eq!(out.read, HELLO.len() + CONNECT.len());
    assert_eq!(
        out.actions,
        vec![
            Action::Connect(v4([10, 0, 0, 1], 80), 10),
            Action::SetNodelay(false),
            Action::Flush,
            Action::Transfer,
        ]
    );
    let mut socket = out.result.ok().unwrap();
    assert_eq!(socket.target_addr(), Some(&TargetAddr::Ip(v4([10, 0, 0, 1], 80))));
    assert_eq!(*socket.cmd(), None);
    assert!(socket.take_credentials().is_none());
    assert_eq!(socket.into_inner().borrow().at, HELLO.len() + CONNECT.len());
}

#[test]
fn domain_name_is_resolved_first() {
    let out = serve(open_config(), &joined(&[HELLO, CONNECT_DOMAIN]));
    assert_eq!(
        out.actions,
        vec![
            Action::ResolveDns("a.de".to_string(), 80),
            Action::Connect(v4([93, 184, 216, 34], 80), 10),
            Action::SetNodelay(false),
            Action::Flush,
            Action::Transfer,
        ]
    );
    let socket = out.result.ok().unwrap();
    assert_eq!(
        socket.target_addr(),
        Some(&TargetAddr::Ip(v4([93, 184, 216, 34], 80)))
    );
}

#[test]
fn settings_reach_the_connection() {
    let mut config = open_config();
    config.set_request_timeout(3);
    let out = serve(config, &joined(&[HELLO, CONNECT]));
    assert_eq!(out.actions[0], Action::Connect(v4([10, 0, 0, 1], 80), 3));
}

#[test]
fn unresolved_domain_name_cannot_be_connected_to() {
    let mut config = open_config();
    config.set_dns_resolve(false);
    let out = serve(config, &joined(&[HELLO, CONNECT_DOMAIN]));
    assert_eq!(out.result.err(), Some(SocksError::Io));
    assert_eq!(out.actions, vec![]);
    assert_eq!(out.output, vec![5, 0]);
}

#[test]
fn commands_are_left_to_the_caller() {
    let mut config = open_config();
    config.set_execute_command(false).set_dns_resolve(false);
    let out = serve(config, &joined(&[HELLO, CONNECT_DOMAIN]));
    assert_eq!(out.actions, vec![]);
    assert_eq!(out.output, vec![5, 0]);
    let mut socket = out.result.ok().unwrap();
    assert_eq!(*socket.cmd(), Some(Socks5Command::TCPConnect));
    assert_eq!(
        socket.target_addr(),
        Some(&TargetAddr::Domain("a.de".to_string(), 80))
    );
    // the domain name can be resolved later
    assert_eq!(socket.resolve_dns(), Some(("a.de".to_string(), 80)));
    assert_eq!(socket.target_addr(), None);
    socket.dns_resolved(v4([1, 2, 3, 4], 80));
    assert_eq!(socket.target_addr(), Some(&TargetAddr::Ip(v4([1, 2, 3, 4], 80))));
    assert_eq!(socket.resolve_dns(), None);
    assert_eq!(socket.target_addr(), Some(&TargetAddr::Ip(v4([1, 2, 3, 4], 80))));
}

#[test]
fn domain_name_is_resolved_for_the_caller() {
    let mut config = udp_config();
    config.set_execute_command(false);
    let request: &[u8] = &[5, 3, 0, 3, 1, 97, 0, 53];
    let out = serve(config, &joined(&[HELLO, request]));
    assert_eq!(out.actions, vec![Action::ResolveDns("a".to_string(), 53)]);
    let socket = out.result.ok().unwrap();
    assert_eq!(*socket.cmd(), Some(Socks5Command::UDPAssociate));
    assert_eq!(
        socket.target_addr(),
        Some(&TargetAddr::Ip(v4([93, 184, 216, 34], 80)))
    );
}

#[test]
fn handshake_can_be_skipped() {
    let out = serve(skip_config(), CONNECT);
    assert_eq!(out.output, CONNECTED.to_vec());
    assert_eq!(out.actions.last(), Some(&Action::Transfer));
    assert!(out.result.is_ok());
}

#[test]
fn password_lets_the_client_in() {
    let out = serve(password_config(), &joined(&[HELLO_PASSWORD, LOGIN, CONNECT]));
    assert_eq!(out.output, joined(&[&[5, 2], &[1, 0], CONNECTED]));
    assert_eq!(
        out.actions[0],
        Action::Authenticate(Some(("ada".to_string(), "pw".to_string())))
    );
    let mut socket = out.result.ok().unwrap();
    assert_eq!(socket.take_credentials().unwrap().username, "ada");
    assert!(socket.take_credentials().is_none());
}

#[test]
fn wrong_password_is_turned_down() {
    let wrong: &[u8] = &[1, 3, 97, 100, 97, 2, 112, 120];
    let out = serve(password_config(), &joined(&[HELLO_PASSWORD, wrong, CONNECT]));
    assert_eq!(out.output, vec![5, 2, 1, 0xff]);
    assert_eq!(
        out.result.err(),
        Some(SocksError::AuthenticationRejected("Authentication, rejected.".to_string()))
    );
    // the request is not even read
    assert_eq!(out.read, HELLO_PASSWORD.len() + wrong.len());
    assert_eq!(out.actions.len(), 1);
}

#[test]
fn client_without_password_is_refused() {
    let out = serve(password_config(), &joined(&[HELLO, CONNECT]));
    assert_eq!(out.output, vec![5, 0xff]);
    assert_eq!(out.result.err(), Some(SocksError::AuthMethodUnacceptable(vec![0])));
    assert_eq!(out.actions, vec![]);
}

#[test]
fn client_without_a_method_is_refused() {
    for hello in [&[5u8, 1, 2][..], &[5, 0][..]] {
        let out = serve(open_config(), &joined(&[hello, CONNECT]));
        assert_eq!(out.output, vec![5, 0xff]);
        assert_eq!(
            out.result.err(),
            Some(SocksError::AuthMethodUnacceptable(hello[2..].to_vec()))
        );
        assert_eq!(out.read, hello.len());
        assert_eq!(out.actions, vec![]);
    }
}

#[test]
fn authentication_is_asked_once() {
    let out = serve(password_config(), &joined(&[HELLO_PASSWORD, LOGIN, CONNECT]));
    let asked = out.actions.iter().filter(|a| matches!(a, Action::Authenticate(_))).count();
    assert_eq!(asked, 1);
    assert!(out.result.is_ok());
}

#[test]
fn client_without_password_is_left_to_the_authentication() {
    let mut config = password_config();
    config.set_allow_no_auth(true);
    let out = serve(config, &joined(&[HELLO, CONNECT]));
    assert_eq!(out.actions, vec![Action::Authenticate(None)]);
    assert_eq!(out.output, vec![5, 0, 1, 0xff]);
    assert_eq!(
        out.result.err(),
        Some(SocksError::AuthenticationRejected("Authentication, rejected.".to_string()))
    );
    let mut config = open_config().with_authentication(AcceptAuthentication {});
    config.set_allow_no_auth(true);
    let out = serve(config, &joined(&[HELLO, CONNECT]));
    // nothing is written when a client without password is let in
    assert_eq!(out.output, joined(&[&[5, 0], CONNECTED]));
    assert_eq!(out.result.ok().unwrap().take_credentials(), Some(()));
}

#[test]
fn everybody_is_let_in_or_nobody() {
    let input = joined(&[HELLO_PASSWORD, LOGIN, CONNECT]);
    let accept = open_config().with_authentication(AcceptAuthentication {});
    assert!(serve(accept, &input).result.is_ok());
    let deny = open_config().with_authentication(DenyAuthentication {});
    let out = serve(deny, &input);
    assert_eq!(out.output, vec![5, 2, 1, 0xff]);
    assert!(out.result.is_err());
}

#[test]
fn bind_is_not_supported() {
    let out = serve(open_config(), &joined(&[HELLO, BIND]));
    assert_eq!(out.output, joined(&[&[5, 0], NOT_SUPPORTED]));
    assert_eq!(out.actions, vec![Action::Flush]);
    assert_eq!(
        out.result.err(),
        Some(SocksError::ReplyError(ReplyError::CommandNotSupported))
    );
}

#[test]
fn udp_has_to_be_switched_on() {
    let out = serve(open_config(), &joined(&[HELLO, ASSOCIATE]));
    assert_eq!(out.output, joined(&[&[5, 0], NOT_SUPPORTED]));
    assert_eq!(
        out.result.err(),
        Some(SocksError::ReplyError(ReplyError::CommandNotSupported))
    );
}

#[test]
fn udp_is_relayed() {
    let ip = IpAddr::V4([192, 0, 2, 1]);
    let input = joined(&[HELLO, ASSOCIATE]);
    let out = serve_with_ip(udp_config(), &input, Some(ip), &quiet());
    assert_eq!(out.output, vec![5, 0, 5, 0, 0, 1, 192, 0, 2, 1, 0x14, 0xe9]);
    assert_eq!(
        out.actions,
        vec![Action::BindUdp, Action::LocalPort, Action::Flush, Action::TransferUdp]
    );
    let socket = out.result.ok().unwrap();
    assert_eq!(*socket.cmd(), None);
}

#[test]
fn udp_needs_an_address_for_the_reply() {
    let out = serve(udp_config(), &joined(&[HELLO, ASSOCIATE]));
    assert_eq!(out.actions, vec![Action::BindUdp]);
    assert_eq!(out.output, vec![5, 0]);
    assert_eq!(out.result.err(), Some(SocksError::Other(Context::InvalidReplyIp)));
}

#[test]
fn bad_messages_end_the_service() {
    let cases: Vec<(Vec<u8>, SocksError)> = vec![
        (vec![4, 1, 0], SocksError::UnsupportedSocksVersion(4)),
        (joined(&[HELLO, &[4, 1, 0, 1]]), SocksError::UnsupportedSocksVersion(4)),
        (
            joined(&[HELLO, &[5, 9, 0, 1]]),
            SocksError::ReplyError(ReplyError::CommandNotSupported),
        ),
        (
            joined(&[HELLO, &[5, 1, 0, 9]]),
            SocksError::ReplyError(ReplyError::AddressTypeNotSupported),
        ),
    ];
    for (input, error) in cases {
        assert_eq!(serve(open_config(), &input).result.err(), Some(error));
    }
}

#[test]
fn client_that_breaks_off_is_given_up() {
    let cases: Vec<(Vec<u8>, SocksError)> = vec![
        (vec![5], SocksError::Other(Context::ReadMethods)),
        (vec![5, 2, 0], SocksError::Other(Context::GetMethods)),
        (joined(&[HELLO_PASSWORD, &[1]]), SocksError::Other(Context::ReadUserLen)),
        (joined(&[HELLO_PASSWORD, &[1, 2, 97]]), SocksError::Other(Context::GetUsername)),
        (joined(&[HELLO_PASSWORD, &[1, 1, 97]]), SocksError::Other(Context::ReadPassLen)),
        (joined(&[HELLO_PASSWORD, &[1, 1, 97, 1]]), SocksError::Other(Context::GetPassword)),
        (
            joined(&[HELLO_PASSWORD, LOGIN, &[5, 1]]),
            SocksError::Other(Context::MalformedRequest),
        ),
        (
            joined(&[HELLO_PASSWORD, LOGIN, &[5, 1, 0, 1, 10]]),
            SocksError::ReplyError(ReplyError::AddressTypeNotSupported),
        ),
    ];
    for (input, error) in cases {
        assert_eq!(serve(password_config(), &input).result.err(), Some(error));
    }
}

#[test]
fn failed_actions_end_the_service() {
    let refused = Fault::Reply(ReplyError::ConnectionRefused);
    let connect = joined(&[HELLO, CONNECT_DOMAIN]);
    // reads: 0 and 1 the methods, 3 to 6 the request
    let cases: Vec<(usize, Fault, SocksError)> = vec![
        (2, Fault::Io, SocksError::Other(Context::ReplyMethod)),
        (7, Fault::Other(Context::ResolveDns), SocksError::Other(Context::ResolveDns)),
        (8, refused, SocksError::ReplyError(ReplyError::ConnectionRefused)),
        (9, Fault::Io, SocksError::Io),
        (10, Fault::Io, SocksError::Other(Context::WriteSuccess)),
        (11, Fault::Io, SocksError::Other(Context::FlushReply)),
    ];
    for (step, fault, error) in cases {
        let out = serve_with_ip(open_config(), &connect, None, &failing(step, fault));
        assert_eq!(out.result.err(), Some(error));
    }
    let login = joined(&[HELLO_PASSWORD, LOGIN]);
    // reads: 0 and 1 the methods, 3 to 6 the credentials; 7 asks the authentication
    let out = serve_with_ip(password_config(), &login, None, &failing(8, Fault::Io));
    assert_eq!(out.result.err(), Some(SocksError::Other(Context::ReplyAuthSuccess)));
    let deny = open_config().with_authentication(DenyAuthentication {});
    let out = serve_with_ip(deny, &login, None, &failing(8, Fault::Io));
    assert_eq!(out.result.err(), Some(SocksError::Other(Context::ReplyAuthNotAcceptable)));
    let out = serve_with_ip(password_config(), HELLO, None, &failing(2, Fault::Io));
    assert_eq!(
        out.result.err(),
        Some(SocksError::Other(Context::ReplyMethodNotAcceptable))
    );
    let bind = joined(&[HELLO, BIND]);
    // reads: 0 and 1 the methods, 3 to 5 the request
    let out = serve_with_ip(open_config(), &bind, None, &failing(6, Fault::Io));
    assert_eq!(out.result.err(), Some(SocksError::Other(Context::WriteReply)));
    let out = serve_with_ip(open_config(), &bind, None, &failing(7, Fault::Io));
    assert_eq!(out.result.err(), Some(SocksError::Other(Context::FlushReply)));
}

#[test]
fn request_that_is_not_carried_out_is_not_answered() {
    let connect = joined(&[HELLO, CONNECT_DOMAIN]);
    // 7 looks the name up, 8 connects, 9 sets the connection up
    for step in [7usize, 8, 9] {
        let out = serve_with_ip(open_config(), &connect, None, &failing(step, Fault::Io));
        assert_eq!(out.result.err(), Some(SocksError::Io));
        assert_eq!(out.output, vec![5, 0]);
    }
    let associate = joined(&[HELLO, ASSOCIATE]);
    let ip = Some(IpAddr::V4([192, 0, 2, 1]));
    // 6 opens the socket, 7 asks for its port
    for step in [6usize, 7] {
        let out = serve_with_ip(udp_config(), &associate, ip, &failing(step, Fault::Io));
        assert_eq!(out.result.err(), Some(SocksError::Io));
        assert_eq!(out.output, vec![5, 0]);
    }
}

#[test]
fn broken_transfer_is_no_failure() {
    let connect = joined(&[HELLO, CONNECT]);
    let out = serve_with_ip(open_config(), &connect, None, &quiet());
    assert_eq!(out.steps, 11);
    let out = serve_with_ip(open_config(), &connect, None, &failing(10, Fault::Io));
    assert!(out.result.is_ok());
}

#[test]
fn broken_udp_relay_is_a_failure() {
    let input = joined(&[HELLO, ASSOCIATE]);
    let ip = Some(IpAddr::V4([192, 0, 2, 1]));
    let out = serve_with_ip(udp_config(), &input, ip, &quiet());
    assert_eq!(out.steps, 11);
    let fault = Fault::Reply(ReplyError::GeneralFailure);
    let out = serve_with_ip(udp_config(), &input, ip, &failing(10, fault));
    assert_eq!(
        out.result.err(),
        Some(SocksError::ReplyError(ReplyError::GeneralFailure))
    );
    for step in [6usize, 7] {
        let out = serve_with_ip(udp_config(), &input, ip, &failing(step, Fault::Io));
        assert_eq!(out.result.err(), Some(SocksError::Io));
    }
}

#[test]
fn event_that_does_not_fit_changes_nothing() {
    let socket = Socks5Socket::new((), Arc::new(open_config()));
    let upgrade = match socket.upgrade_to_socks5() {
        Progress::Pending(upgrade) => upgrade,
        _ => panic!("nothing has been read"),
    };
    let upgrade = match upgrade.resume(Event::Done) {
        Progress::Pending(upgrade) => upgrade,
        _ => panic!("nothing has been read"),
    };
    let upgrade = match upgrade.resume(Event::Port(1)) {
        Progress::Pending(upgrade) => upgrade,
        _ => panic!("nothing has been read"),
    };
    let upgrade = match upgrade.resume(Event::Answer(Some(()))) {
        Progress::Pending(upgrade) => upgrade,
        _ => panic!("nothing has been read"),
    };
    let upgrade = match upgrade.resume(Event::Resolved(v4([1, 2, 3, 4], 5))) {
        Progress::Pending(upgrade) => upgrade,
        _ => panic!("nothing has been read"),
    };
    assert_eq!(upgrade.action(), Action::ReadExact(2));
}

#[test]
fn octets_may_come_one_by_one() {
    let socket = Socks5Socket::new((), Arc::new(skip_config()));
    let mut progress = socket.upgrade_to_socks5();
    let mut expected: Vec<usize> = vec![4, 3, 2, 1, 4, 3, 2, 1, 2, 1];
    for octet in CONNECT {
        let upgrade = match progress {
            Progress::Pending(upgrade) => upgrade,
            _ => panic!("the request is not complete"),
        };
        assert_eq!(upgrade.action(), Action::ReadExact(expected.remove(0)));
        progress = upgrade.resume(Event::Read(vec![*octet]));
    }
    match progress {
        Progress::Pending(upgrade) => {
            assert_eq!(upgrade.action(), Action::Connect(v4([10, 0, 0, 1], 80), 10))
        }
        _ => panic!("the request is complete"),
    }
}
