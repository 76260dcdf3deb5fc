//! What the server does next, spelled out in octets and settings.
//!
//! The laws go through the service of a client from its beginning to its end. Each says,
//! of every client, every setting and every outcome of an action, what the next action is
//! and what has changed by then.

use vstd::prelude::*;
use vstd::utf8::{decode_utf8, valid_utf8};

use crate::addr::SocketAddrView;
use crate::auth::Authentication;
use crate::command::Socks5Command;
use crate::error::{Context, ErrorView, Fault};
use crate::message::Message;
use crate::protocol::{
    command_message, command_read, credentials_message, credentials_read, methods_message,
    methods_read, password_takes_precedence, unspecified_addr,
};
use crate::reply::{reply_bytes, reply_octets, ReplyError};
use crate::socket::{SessionView, SocketView};
use crate::target::{address_message, address_read, target_uses, TargetView};
use crate::upgrade::{
    connected_addr, credentials_view, Action, ActionView, Event, EventView, Progress,
    ProgressView, Relay, StageView, UpgradeView,
};

verus! {

/// The service begins with two octets of the client's methods, or, where the handshake is
/// left out, with four octets of its request. Nothing has changed by then.
pub proof fn service_begins<T, A: Authentication>(socket: SocketView<T, A>)
    ensures
        socket.upgrade() matches ProgressView::Pending(first) && first.socket == socket && (if (
        socket.session.config.skip_auth) {
            &&& first.action() == ActionView::ReadExact(4)
            &&& first.stage == (StageView::<A::Item>::Command {
                received: Seq::empty(),
                count: 4,
                failure: ErrorView::Other(Context::MalformedRequest),
            })
        } else {
            &&& first.action() == ActionView::ReadExact(2)
            &&& first.stage == (StageView::<A::Item>::Methods {
                received: Seq::empty(),
                count: 2,
                failure: ErrorView::Other(Context::ReadMethods),
            })
        }),
{
}

/// The client's methods, once they are all there, are answered. Where there is an
/// authentication and the client offers a password, the answer is 5 and 2, and the
/// credentials are read, whether or not they might have been left out. Where the client
/// offers to go without and there is no authentication, the answer is 5 and 0, and the
/// request is read; where it does not offer a password and may leave its credentials out,
/// the answer is the same, and the authentication is asked. In all other cases the answer
/// is 5 and 255, and the service ends.
pub proof fn methods_answered<T, A: Authentication>(socket: SocketView<T, A>, received: Seq<u8>)
    requires
        received.len() >= 2,
        received[0] == 5,
        received.len() >= 2 + received[1],
    ensures
        ({
            let config = socket.session.config;
            let offered = received.subrange(2, 2 + received[1]);
            let password = config.auth is Some && offered.contains(2);
            let open = offered.contains(0) && config.auth is None;
            let lenient = offered.contains(0) && config.auth is Some && config.allow_no_auth
                && !offered.contains(2);
            &&& socket.read_methods(received) matches ProgressView::Pending(answering)
            &&& answering.socket == socket
            &&& password ==> {
                &&& answering.action() == ActionView::Write(seq![5u8, 2])
                &&& answering.resume(EventView::Done) matches ProgressView::Pending(next)
                &&& next.socket == socket
                &&& next.action() == ActionView::ReadExact(2)
                &&& next.stage == (StageView::<A::Item>::Credentials {
                    received: Seq::empty(),
                    count: 2,
                    failure: ErrorView::Other(Context::ReadUserLen),
                })
            }
            &&& open ==> {
                &&& answering.action() == ActionView::Write(seq![5u8, 0])
                &&& answering.resume(EventView::Done) matches ProgressView::Pending(next)
                &&& next.socket == socket
                &&& next.action() == ActionView::ReadExact(4)
                &&& next.stage == (StageView::<A::Item>::Command {
                    received: Seq::empty(),
                    count: 4,
                    failure: ErrorView::Other(Context::MalformedRequest),
                })
            }
            &&& lenient ==> {
                &&& answering.action() == ActionView::Write(seq![5u8, 0])
                &&& answering.resume(EventView::Done) matches ProgressView::Pending(next)
                &&& next.socket == socket
                &&& next.action() == ActionView::Authenticate(None)
                &&& next.stage == (StageView::<A::Item>::Authenticating {
                    method: 0,
                    credentials: None,
                })
            }
            &&& !password && !open && !lenient ==> {
                &&& answering.action() == ActionView::WriteAll(seq![5u8, 0xff])
                &&& answering.resume(EventView::Done) == ProgressView::<T, A>::Failed(
                    ErrorView::AuthMethodUnacceptable(offered),
                )
            }
        }),
{
    let offered = received.subrange(2, 2 + received[1]);
    methods_read(received);
    password_takes_precedence(socket.session.config, offered);
    let value = methods_message(received)->Done_value;
    assert(value =~= offered);
}

/// As long as octets of a message are missing they are read, and the service goes on with
/// what is there then. A read that failed ends it, and so does what cannot become the
/// message.
pub proof fn messages_awaited<T, A: Authentication>(
    socket: SocketView<T, A>,
    received: Seq<u8>,
    bytes: Seq<u8>,
    fault: Fault,
)
    ensures
        match methods_message(received) {
            Message::More { count, failure } => {
                &&& socket.read_methods(received) matches ProgressView::Pending(reading)
                &&& reading.socket == socket
                &&& reading.action() == ActionView::ReadExact(count)
                &&& reading.resume(EventView::Read(bytes)) == socket.read_methods(received + bytes)
                &&& reading.resume(EventView::Failed(fault)) == ProgressView::<T, A>::Failed(
                    failure,
                )
            },
            Message::Failed(e) => socket.read_methods(received)
                == ProgressView::<T, A>::Failed(e),
            _ => true,
        },
        match credentials_message(received) {
            Message::More { count, failure } => {
                &&& socket.read_credentials(received) matches ProgressView::Pending(reading)
                &&& reading.socket == socket
                &&& reading.action() == ActionView::ReadExact(count)
                &&& reading.resume(EventView::Read(bytes)) == socket.read_credentials(
                    received + bytes,
                )
                &&& reading.resume(EventView::Failed(fault)) == ProgressView::<T, A>::Failed(
                    failure,
                )
            },
            Message::Failed(e) => socket.read_credentials(received)
                == ProgressView::<T, A>::Failed(e),
            _ => true,
        },
        match command_message(received) {
            Message::More { count, failure } => {
                &&& socket.read_command(received) matches ProgressView::Pending(reading)
                &&& reading.socket == socket
                &&& reading.action() == ActionView::ReadExact(count)
                &&& reading.resume(EventView::Read(bytes)) == socket.read_command(received + bytes)
                &&& reading.resume(EventView::Failed(fault)) == ProgressView::<T, A>::Failed(
                    failure,
                )
            },
            Message::Failed(e) => socket.read_command(received)
                == ProgressView::<T, A>::Failed(e),
            Message::Done { value, used } => socket.read_command(received)
                == socket.requested(value.0, value.1),
        },
{
}

/// The authentication is asked about the username and the password that the client sent,
/// once both are there and are UTF-8, and about nothing else.
pub proof fn credentials_submitted<T, A: Authentication>(
    socket: SocketView<T, A>,
    received: Seq<u8>,
)
    requires
        received.len() >= 3 + received[1],
        received[1] > 0,
        received[2 + received[1]] > 0,
        received.len() >= 3 + received[1] + received[2 + received[1]],
        valid_utf8(received.subrange(2, 2 + received[1])),
        valid_utf8(
            received.subrange(3 + received[1], 3 + received[1] + received[2 + received[1]]),
        ),
    ensures
        socket.read_credentials(received) matches ProgressView::Pending(asking)
            && asking.socket == socket && asking.stage == (StageView::<A::Item>::Authenticating {
            method: 2,
            credentials: Some(
                (
                    decode_utf8(received.subrange(2, 2 + received[1])),
                    decode_utf8(
                        received.subrange(
                            3 + received[1],
                            3 + received[1] + received[2 + received[1]],
                        ),
                    ),
                ),
            ),
        }) && asking.action() == ActionView::Authenticate(asking.stage->Authenticating_credentials),
{
    credentials_read(received);
}

/// A client that the authentication lets in is let in, and its request is read: at once, or,
/// where it sent a password, after it was told so by the octets 1 and 0. What is known of it
/// is what the authentication said. A client that is turned down is told so by the octets 1
/// and 255, and the service ends.
pub proof fn answer_obeyed<T, A: Authentication>(
    asking: UpgradeView<T, A>,
    method: u8,
    credentials: Option<(Seq<char>, Seq<char>)>,
    item: A::Item,
)
    requires
        asking.stage == (StageView::<A::Item>::Authenticating { method, credentials }),
    ensures
        asking.action() == ActionView::Authenticate(credentials),
        ({
            let inside = SocketView {
                session: SessionView { credentials: Some(item), ..asking.socket.session },
                ..asking.socket
            };
            let reading = ProgressView::Pending(
                UpgradeView {
                    socket: inside,
                    stage: StageView::<A::Item>::Command {
                        received: Seq::empty(),
                        count: 4,
                        failure: ErrorView::Other(Context::MalformedRequest),
                    },
                },
            );
            &&& method != 2 ==> asking.resume(EventView::Answer(Some(item))) == reading
            &&& method == 2 ==> {
                &&& asking.resume(EventView::Answer(Some(item))) matches ProgressView::Pending(
                    granting,
                )
                &&& granting.socket == asking.socket
                &&& granting.action() == ActionView::WriteAll(seq![1u8, 0])
                &&& granting.resume(EventView::Done) == reading
            }
        }),
        asking.resume(EventView::Answer(None)) matches ProgressView::Pending(denying)
            && denying.socket == asking.socket && denying.action() == ActionView::WriteAll(
            seq![1u8, 0xff],
        ) && denying.resume(EventView::Done) == ProgressView::<T, A>::Failed(
            ErrorView::AuthenticationRejected("Authentication, rejected."@),
        ),
{
}

/// A connection is supported always, waiting for one never, and UDP where the settings say
/// so. Nothing else decides.
pub proof fn commands_supported<T, A: Authentication>(
    socket: SocketView<T, A>,
    cmd: Socks5Command,
)
    ensures
        socket.supports(cmd) == (cmd == Socks5Command::TCPConnect || (cmd
            == Socks5Command::UDPAssociate && socket.session.config.allow_udp)),
{
}

/// A command that is not supported is answered with 5, 7 and an address of zeros; that is
/// flushed, and the service ends. UDP is not supported where the settings do not allow it,
/// and waiting for a connection never is.
pub proof fn unsupported_answered<T, A: Authentication>(
    socket: SocketView<T, A>,
    cmd: Socks5Command,
    target: TargetView,
)
    requires
        cmd == Socks5Command::TCPBind || (cmd == Socks5Command::UDPAssociate
            && !socket.session.config.allow_udp),
    ensures
        socket.requested(cmd, target) matches ProgressView::Pending(refusing) && refusing.socket
            == socket && refusing.action() == ActionView::Write(
            seq![5u8, 7, 0, 1, 0, 0, 0, 0, 0, 0],
        ) && (refusing.resume(EventView::Done) matches ProgressView::Pending(flushing)
            && flushing.socket == socket && flushing.action() == ActionView::Flush
            && flushing.resume(EventView::Done) == ProgressView::<T, A>::Failed(
            ErrorView::ReplyError(ReplyError::CommandNotSupported),
        )),
{
    let reply = reply_bytes(ReplyError::CommandNotSupported, unspecified_addr());
    reply_octets(ReplyError::CommandNotSupported, unspecified_addr());
    let octets = unspecified_addr().octets;
    assert(octets[0] == 0 && octets[1] == 0 && octets[2] == 0 && octets[3] == 0);
    assert(reply =~= seq![5u8, 7, 0, 1, 0, 0, 0, 0, 0, 0]);
}

/// A request for an address, be it for a connection or for UDP where the settings allow it,
/// is carried out: a connection is made to that address, within the timeout, or a UDP socket
/// is opened. Where commands are not executed, the client has been served with its request.
pub proof fn address_carried_out<T, A: Authentication>(
    socket: SocketView<T, A>,
    cmd: Socks5Command,
    addr: SocketAddrView,
)
    requires
        cmd == Socks5Command::TCPConnect || (cmd == Socks5Command::UDPAssociate
            && socket.session.config.allow_udp),
    ensures
        ({
            let config = socket.session.config;
            let p = socket.requested(cmd, TargetView::Ip(addr));
            let session = SessionView {
                target_addr: Some(TargetView::Ip(addr)),
                ..socket.session
            };
            if !config.execute_command {
                p == ProgressView::Finished(
                    SocketView { session: SessionView { cmd: Some(cmd), ..session }, ..socket },
                )
            } else {
                &&& p matches ProgressView::Pending(next)
                &&& next.socket == (SocketView {
                    session: SessionView { cmd: None, ..session },
                    ..socket
                })
                &&& cmd == Socks5Command::TCPConnect ==> {
                    &&& next.stage == (StageView::<A::Item>::Connecting { addr })
                    &&& next.action() == ActionView::Connect(addr, config.request_timeout)
                }
                &&& cmd == Socks5Command::UDPAssociate ==> {
                    &&& next.stage == StageView::<A::Item>::BindingUdp
                    &&& next.action() == ActionView::BindUdp
                }
            }
        }),
{
    target_uses(TargetView::Ip(addr));
}

/// A request for a domain name is carried out: where the settings say so, the name is looked
/// up, the address that was found takes its place, and the request goes on as one for that
/// address. A name that was not looked up cannot be connected to, but does not stand in the
/// way of UDP, nor where commands are not executed.
pub proof fn domain_carried_out<T, A: Authentication>(
    socket: SocketView<T, A>,
    cmd: Socks5Command,
    name: Seq<char>,
    port: u16,
    found: SocketAddrView,
)
    requires
        cmd == Socks5Command::TCPConnect || (cmd == Socks5Command::UDPAssociate
            && socket.session.config.allow_udp),
    ensures
        ({
            let config = socket.session.config;
            let p = socket.requested(cmd, TargetView::Domain(name, port));
            let named = SessionView {
                cmd: Some(cmd),
                target_addr: Some(TargetView::Domain(name, port)),
                ..socket.session
            };
            if config.dns_resolve {
                &&& p matches ProgressView::Pending(resolving)
                &&& resolving.action() == ActionView::ResolveDns(name, port)
                &&& resolving.socket == (SocketView {
                    session: SessionView { target_addr: None, ..named },
                    ..socket
                })
                &&& resolving.resume(EventView::Resolved(found)) == socket.requested(
                    cmd,
                    TargetView::Ip(found),
                )
            } else if !config.execute_command {
                p == ProgressView::Finished(SocketView { session: named, ..socket })
            } else if cmd == Socks5Command::TCPConnect {
                p == ProgressView::<T, A>::Failed(ErrorView::Io)
            } else {
                &&& p matches ProgressView::Pending(binding)
                &&& binding.action() == ActionView::BindUdp
                &&& binding.stage == StageView::<A::Item>::BindingUdp
                &&& binding.socket == (SocketView {
                    session: SessionView { cmd: None, ..named },
                    ..socket
                })
            }
        }),
{
    target_uses(TargetView::Domain(name, port));
}

/// The octets of a request decide where the server connects to: to the four or sixteen
/// octets of the address, in their order, and to the port that its last two octets give,
/// the high one first.
pub proof fn connection_goes_to_the_octets<T, A: Authentication>(
    socket: SocketView<T, A>,
    received: Seq<u8>,
)
    requires
        received.len() >= 10,
        received[0] == 5,
        received[1] == 1,
        received[3] == 1 || (received[3] == 4 && received.len() >= 22),
        socket.session.config.execute_command,
    ensures
        ({
            let n: int = if received[3] == 1 { 4 } else { 16 };
            &&& socket.read_command(received) matches ProgressView::Pending(connecting)
            &&& connecting.action() matches ActionView::Connect(addr, timeout)
            &&& timeout == socket.session.config.request_timeout
            &&& addr.octets.len() == n
            &&& forall|i: int| 0 <= i < n ==> #[trigger] addr.octets[i] == received[4 + i]
            &&& addr.port == received[4 + n] * 256 + received[5 + n]
            &&& addr.flowinfo == 0 && addr.scope_id == 0
        }),
{
    let n: int = if received[3] == 1 { 4 } else { 16 };
    let rest = received.skip(4);
    command_read(received);
    address_read(received[3], rest);
    let addr = address_message(received[3], rest)->Done_value->Ip_0;
    address_carried_out(socket, Socks5Command::TCPConnect, addr);
    assert forall|i: int| 0 <= i < n implies #[trigger] addr.octets[i] == received[4 + i] by {
        assert(rest[i] == received[4 + i]);
    }
    assert(rest[n] == received[4 + n]);
    assert(rest[n + 1] == received[5 + n]);
}

/// The octets of a request decide which domain name is looked up, and for which port.
pub proof fn lookup_goes_by_the_octets<T, A: Authentication>(
    socket: SocketView<T, A>,
    received: Seq<u8>,
)
    requires
        received.len() >= 5,
        received[0] == 5,
        received[1] == 1 || (received[1] == 3 && socket.session.config.allow_udp),
        received[3] == 3,
        received.len() >= 7 + received[4],
        valid_utf8(received.subrange(5, 5 + received[4])),
        socket.session.config.dns_resolve,
    ensures
        socket.read_command(received) matches ProgressView::Pending(resolving)
            && resolving.action() == ActionView::ResolveDns(
            decode_utf8(received.subrange(5, 5 + received[4])),
            (received[5 + received[4]] * 256 + received[6 + received[4]]) as u16,
        ),
{
    let n = received[4] as int;
    let rest = received.skip(4);
    assert(rest[0] == received[4]);
    assert(rest.subrange(1, 1 + n) =~= received.subrange(5, 5 + n));
    assert(rest[1 + n] == received[5 + n]);
    assert(rest[2 + n] == received[6 + n]);
    command_read(received);
    address_read(received[3], rest);
}

/// Once there is a connection, it is set up as the settings say; then the client is told
/// 5, 0, 0, 1 and 127.0.0.1 with port 0, that is flushed, and data is relayed. With that the
/// client has been served, also where the transfer broke off.
pub proof fn connection_used<T, A: Authentication>(
    connecting: UpgradeView<T, A>,
    addr: SocketAddrView,
    fault: Fault,
)
    requires
        connecting.stage == (StageView::<A::Item>::Connecting { addr }),
    ensures
        ({
            let socket = connecting.socket;
            &&& connecting.resume(EventView::Done) matches ProgressView::Pending(setting)
            &&& setting.socket == socket
            &&& setting.action() == ActionView::SetNodelay(socket.session.config.nodelay)
            &&& setting.resume(EventView::Done) matches ProgressView::Pending(replying)
            &&& replying.socket == socket
            &&& replying.action() == ActionView::Write(seq![5u8, 0, 0, 1, 127, 0, 0, 1, 0, 0])
            &&& replying.resume(EventView::Done) matches ProgressView::Pending(flushing)
            &&& flushing.socket == socket
            &&& flushing.action() == ActionView::Flush
            &&& flushing.resume(EventView::Done) matches ProgressView::Pending(relaying)
            &&& relaying.socket == socket
            &&& relaying.action() == ActionView::Transfer
            &&& relaying.resume(EventView::Done) == ProgressView::Finished(socket)
            &&& relaying.resume(EventView::Failed(fault)) == ProgressView::Finished(socket)
        }),
{
    let reply = reply_bytes(ReplyError::Succeeded, connected_addr());
    reply_octets(ReplyError::Succeeded, connected_addr());
    let octets = connected_addr().octets;
    assert(octets[0] == 127 && octets[1] == 0 && octets[2] == 0 && octets[3] == 1);
    assert(reply =~= seq![5u8, 0, 0, 1, 127, 0, 0, 1, 0, 0]);
}

/// Once there is a UDP socket, its port is asked for, where there is an address for the
/// reply; without one the service ends. The client is told 5, 0, 0, the octets of that
/// address in their order, and that port, the high octet first; that is flushed, and
/// datagrams are relayed. With that the client has been served; a relay that failed ends the
/// service with its failure.
pub proof fn udp_socket_used<T, A: Authentication>(
    binding: UpgradeView<T, A>,
    port: u16,
    fault: Fault,
)
    requires
        binding.stage == StageView::<A::Item>::BindingUdp,
    ensures
        match binding.socket.session.reply_ip {
            None => binding.resume(EventView::Done) == ProgressView::<T, A>::Failed(
                ErrorView::Other(Context::InvalidReplyIp),
            ),
            Some(ip) => ip.len() == 4 || ip.len() == 16 ==> {
                let socket = binding.socket;
                let n = ip.len() as int;
                &&& binding.resume(EventView::Done) matches ProgressView::Pending(locating)
                &&& locating.socket == socket
                &&& locating.action() == ActionView::LocalPort
                &&& locating.resume(EventView::Port(port)) matches ProgressView::Pending(replying)
                &&& replying.socket == socket
                &&& replying.action() matches ActionView::Write(reply)
                &&& reply.len() == n + 6
                &&& reply[0] == 5 && reply[1] == 0 && reply[2] == 0
                &&& reply[3] == (if n == 4 { 1u8 } else { 4u8 })
                &&& forall|i: int| 0 <= i < n ==> reply[4 + i] == #[trigger] ip[i]
                &&& reply[n + 4] * 256 + reply[n + 5] == port
                &&& replying.resume(EventView::Done) matches ProgressView::Pending(flushing)
                &&& flushing.socket == socket
                &&& flushing.action() == ActionView::Flush
                &&& flushing.resume(EventView::Done) matches ProgressView::Pending(relaying)
                &&& relaying.socket == socket
                &&& relaying.action() == ActionView::TransferUdp
                &&& relaying.resume(EventView::Done) == ProgressView::Finished(socket)
                &&& relaying.resume(EventView::Failed(fault)) == ProgressView::<T, A>::Failed(
                    fault.error(),
                )
            },
        },
{
    if let Some(ip) = binding.socket.session.reply_ip {
        if ip.len() == 4 || ip.len() == 16 {
            let addr = SocketAddrView::of(ip, port);
            reply_octets(ReplyError::Succeeded, addr);
            assert(addr.octets == ip);
        }
    }
}

/// An action that failed ends the service: a write to the client with the step that it was
/// part of, and an action on the client's behalf with its own failure.
pub proof fn failures_end_the_service<T, A: Authentication>(
    upgrade: UpgradeView<T, A>,
    fault: Fault,
)
    ensures
        match upgrade.stage {
            StageView::Methods { failure, .. } => upgrade.resume(EventView::Failed(fault))
                == ProgressView::<T, A>::Failed(failure),
            StageView::Credentials { failure, .. } => upgrade.resume(EventView::Failed(fault))
                == ProgressView::<T, A>::Failed(failure),
            StageView::Command { failure, .. } => upgrade.resume(EventView::Failed(fault))
                == ProgressView::<T, A>::Failed(failure),
            StageView::RefusingMethod { .. } => upgrade.resume(EventView::Failed(fault))
                == ProgressView::<T, A>::Failed(
                ErrorView::Other(Context::ReplyMethodNotAcceptable),
            ),
            StageView::AcceptingMethod { .. } => upgrade.resume(EventView::Failed(fault))
                == ProgressView::<T, A>::Failed(ErrorView::Other(Context::ReplyMethod)),
            StageView::Granting { .. } => upgrade.resume(EventView::Failed(fault))
                == ProgressView::<T, A>::Failed(ErrorView::Other(Context::ReplyAuthSuccess)),
            StageView::Denying { .. } => upgrade.resume(EventView::Failed(fault))
                == ProgressView::<T, A>::Failed(ErrorView::Other(Context::ReplyAuthNotAcceptable)),
            StageView::RefusingCommand { .. } => upgrade.resume(EventView::Failed(fault))
                == ProgressView::<T, A>::Failed(ErrorView::Other(Context::WriteReply)),
            StageView::FlushingRefusal => upgrade.resume(EventView::Failed(fault))
                == ProgressView::<T, A>::Failed(ErrorView::Other(Context::FlushReply)),
            StageView::Replying { .. } => upgrade.resume(EventView::Failed(fault))
                == ProgressView::<T, A>::Failed(ErrorView::Other(Context::WriteSuccess)),
            StageView::Flushing { .. } => upgrade.resume(EventView::Failed(fault))
                == ProgressView::<T, A>::Failed(ErrorView::Other(Context::FlushReply)),
            StageView::Relaying { relay: Relay::Tcp } => upgrade.resume(EventView::Failed(fault))
                == ProgressView::Finished(upgrade.socket),
            _ => upgrade.resume(EventView::Failed(fault)) == ProgressView::<T, A>::Failed(
                match fault {
                    Fault::Io => ErrorView::Io,
                    Fault::Reply(reply) => ErrorView::ReplyError(reply),
                    Fault::Other(context) => ErrorView::Other(context),
                },
            ),
        },
{
}

/// What is read, written, asked for and looked up in a stage is what the stage holds, and an
/// event that tells of another action changes nothing.
pub proof fn stages_act<T, A: Authentication>(
    upgrade: UpgradeView<T, A>,
    event: EventView<A::Item>,
)
    ensures
        upgrade.action() == match upgrade.stage {
            StageView::Methods { count, .. } => ActionView::ReadExact(count),
            StageView::Credentials { count, .. } => ActionView::ReadExact(count),
            StageView::Command { count, .. } => ActionView::ReadExact(count),
            StageView::RefusingMethod { reply, .. } => ActionView::WriteAll(reply),
            StageView::AcceptingMethod { reply, .. } => ActionView::Write(reply),
            StageView::Authenticating { credentials, .. } => ActionView::Authenticate(credentials),
            StageView::Granting { reply, .. } => ActionView::WriteAll(reply),
            StageView::Denying { reply, .. } => ActionView::WriteAll(reply),
            StageView::RefusingCommand { reply } => ActionView::Write(reply),
            StageView::FlushingRefusal => ActionView::Flush,
            StageView::Resolving { name, port } => ActionView::ResolveDns(name, port),
            StageView::Connecting { addr } => ActionView::Connect(
                addr,
                upgrade.socket.session.config.request_timeout,
            ),
            StageView::SettingNodelay => ActionView::SetNodelay(
                upgrade.socket.session.config.nodelay,
            ),
            StageView::BindingUdp => ActionView::BindUdp,
            StageView::LocatingUdp { .. } => ActionView::LocalPort,
            StageView::Replying { reply, .. } => ActionView::Write(reply),
            StageView::Flushing { .. } => ActionView::Flush,
            StageView::Relaying { relay: Relay::Tcp } => ActionView::Transfer,
            StageView::Relaying { relay: Relay::Udp } => ActionView::TransferUdp,
        },
        event is Read && upgrade.action() !is ReadExact ==> upgrade.resume(event)
            == ProgressView::Pending(upgrade),
        event is Answer && upgrade.action() !is Authenticate ==> upgrade.resume(event)
            == ProgressView::Pending(upgrade),
        event is Resolved && upgrade.action() !is ResolveDns ==> upgrade.resume(event)
            == ProgressView::Pending(upgrade),
        event is Port && upgrade.action() !is LocalPort ==> upgrade.resume(event)
            == ProgressView::Pending(upgrade),
        event is Done && (upgrade.action() is ReadExact || upgrade.action() is Authenticate
            || upgrade.action() is ResolveDns || upgrade.action() is LocalPort) ==> upgrade.resume(
            event,
        ) == ProgressView::Pending(upgrade),
{
}

/// An action, an event and a progress stand for what they say.
pub proof fn service_parts<T, A: Authentication>(
    action: Action,
    event: Event<A::Item>,
    progress: Progress<T, A>,
    credentials: Option<(String, String)>,
)
    ensures
        match action {
            Action::ReadExact(count) => action@ matches ActionView::ReadExact(n) && n == count,
            Action::Write(bytes) => action@ == ActionView::Write(bytes@),
            Action::WriteAll(bytes) => action@ == ActionView::WriteAll(bytes@),
            Action::Flush => action@ == ActionView::Flush,
            Action::Authenticate(Some((username, password))) => action@
                == ActionView::Authenticate(Some((username@, password@))),
            Action::Authenticate(None) => action@ == ActionView::Authenticate(None),
            Action::ResolveDns(name, port) => action@ == ActionView::ResolveDns(name@, port),
            Action::Connect(addr, timeout) => action@ == ActionView::Connect(addr@, timeout),
            Action::SetNodelay(value) => action@ == ActionView::SetNodelay(value),
            Action::Transfer => action@ == ActionView::Transfer,
            Action::BindUdp => action@ == ActionView::BindUdp,
            Action::LocalPort => action@ == ActionView::LocalPort,
            Action::TransferUdp => action@ == ActionView::TransferUdp,
        },
        match event {
            Event::Read(bytes) => event@ == EventView::<A::Item>::Read(bytes@),
            Event::Done => event@ == EventView::<A::Item>::Done,
            Event::Answer(answer) => event@ == EventView::Answer(answer),
            Event::Resolved(addr) => event@ == EventView::<A::Item>::Resolved(addr@),
            Event::Port(port) => event@ == EventView::<A::Item>::Port(port),
            Event::Failed(fault) => event@ == EventView::<A::Item>::Failed(fault),
        },
        match progress {
            Progress::Pending(upgrade) => progress@ == ProgressView::Pending(upgrade@),
            Progress::Finished(socket) => progress@ == ProgressView::Finished(socket@),
            Progress::Failed(e) => progress@ == ProgressView::<T, A>::Failed(e@),
        },
        match credentials {
            Some((username, password)) => credentials_view(credentials) == Some(
                (username@, password@),
            ),
            None => credentials_view(credentials) is None,
        },
{
}

} // verus!
