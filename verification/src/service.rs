//! How clients that keep to the protocol fare.
//!
//! Each law says that there is a run of the service that ends as it should, with all that
//! the client sent read and the right answers written. What the authentication and the
//! network do on the way is a matter of the run.

use vstd::prelude::*;

use crate::addr::SocketAddrView;
use crate::auth::Authentication;
use crate::command::Socks5Command;
use crate::consts;
use crate::error::ErrorView;
use crate::message::{read_exactly, Message};
use crate::protocol::{
    auth_reply, authentication_rejected, chosen_method, command_message, credentials_message,
    method_reply, methods_message, unspecified_addr,
};
use crate::reply::{reply_bytes, ReplyError};
use crate::runs::{progress, received, run, sent, Exchange, Step};
use crate::socket::{SessionView, SocketView};
use crate::target::TargetView;
use crate::upgrade::{
    connected_addr, ActionView, EventView, ProgressView, Relay, StageView, UpgradeView,
};
use crate::wire::{
    credentials_read_exactly, greeting, greeting_round_trip, login, login_round_trip,
    methods_read_exactly, request_read_exactly, request_round_trip,
};

verus! {

/// The service has come as far as `p`; the server has read `got` and written `said`.
#[verifier::opaque]
spec fn reached<T, A: Authentication>(
    start: SocketView<T, A>,
    steps: Seq<Step<T, A::Item>>,
    got: Seq<u8>,
    said: Seq<u8>,
    p: ProgressView<T, A>,
) -> bool {
    &&& run(start, steps)
    &&& progress(start, steps) == p
    &&& received(steps) == got
    &&& sent(start, steps) == said
}

/// What the server has read after an action that went as `event` tells.
spec fn heard<I>(got: Seq<u8>, event: EventView<I>) -> Seq<u8> {
    match event {
        EventView::Read(bytes) => got + bytes,
        _ => got,
    }
}

/// What the server has written after `action` went as `event` tells.
spec fn told<I>(said: Seq<u8>, action: ActionView, event: EventView<I>) -> Seq<u8> {
    match (action, event) {
        (ActionView::Write(bytes), EventView::Done) => said + bytes,
        (ActionView::WriteAll(bytes), EventView::Done) => said + bytes,
        _ => said,
    }
}

/// The run goes on with an action that went as `event` tells.
proof fn extend<T, A: Authentication>(
    start: SocketView<T, A>,
    steps: Seq<Step<T, A::Item>>,
    got: Seq<u8>,
    said: Seq<u8>,
    upgrade: UpgradeView<T, A>,
    event: EventView<A::Item>,
) -> (r: Seq<Step<T, A::Item>>)
    requires
        reached(start, steps, got, said, ProgressView::Pending(upgrade)),
        upgrade.action().answered_by(event),
        upgrade.socket.inner == start.inner,
    ensures
        reached(
            start,
            r,
            heard(got, event),
            told(said, upgrade.action(), event),
            upgrade.resume(event),
        ),
{
    reveal(reached);
    let r = steps.push(Step { stream: start.inner, event });
    assert(r.drop_last() =~= steps);
    assert((UpgradeView {
        socket: SocketView { inner: start.inner, ..upgrade.socket },
        ..upgrade
    }) == upgrade);
    r
}

/// Whatever part of a message is there, the octets that it asks for bring the service
/// from `go(part)` to `go` of the longer part.
#[verifier::opaque]
spec fn reads_on<T, A: Authentication, V>(
    start: SocketView<T, A>,
    go: spec_fn(Seq<u8>) -> ProgressView<T, A>,
    message: spec_fn(Seq<u8>) -> Message<V, ErrorView>,
    part: Seq<u8>,
    bytes: Seq<u8>,
) -> bool {
    message(part) matches Message::More { count, failure } ==> bytes.len() == count ==> {
        &&& go(part) matches ProgressView::Pending(upgrade)
        &&& upgrade.socket.inner == start.inner
        &&& upgrade.action() == ActionView::ReadExact(count)
        &&& upgrade.resume(EventView::Read(bytes)) == go(part + bytes)
    }
}

/// The octets that a message asks for next are read.
proof fn read_part<T, A: Authentication, V>(
    start: SocketView<T, A>,
    steps: Seq<Step<T, A::Item>>,
    got: Seq<u8>,
    said: Seq<u8>,
    go: spec_fn(Seq<u8>) -> ProgressView<T, A>,
    message: spec_fn(Seq<u8>) -> Message<V, ErrorView>,
    part: Seq<u8>,
    bytes: Seq<u8>,
) -> (r: Seq<Step<T, A::Item>>)
    requires
        reached(start, steps, got, said, go(part)),
        reads_on(start, go, message, part, bytes),
        message(part) matches Message::More { count, failure } && bytes.len() == count,
    ensures
        reached(start, r, got + bytes, said, go(part + bytes)),
{
    reveal(reads_on);
    extend(start, steps, got, said, go(part)->Pending_0, EventView::Read(bytes))
}

/// The rest of a message is read.
proof fn read_through<T, A: Authentication, V>(
    start: SocketView<T, A>,
    steps: Seq<Step<T, A::Item>>,
    got: Seq<u8>,
    said: Seq<u8>,
    go: spec_fn(Seq<u8>) -> ProgressView<T, A>,
    message: spec_fn(Seq<u8>) -> Message<V, ErrorView>,
    all: Seq<u8>,
    k: int,
) -> (r: Seq<Step<T, A::Item>>)
    requires
        0 <= k <= all.len(),
        reached(start, steps, got, said, go(all.take(k))),
        forall|part: Seq<u8>, bytes: Seq<u8>| #[trigger]
            reads_on(start, go, message, part, bytes),
        read_exactly(message, all),
        message(all) matches Message::Done { value, used } && used == all.len(),
    ensures
        reached(start, r, got + all.skip(k), said, go(all)),
    decreases all.len() - k,
{
    if k == all.len() {
        assert(all.take(k) =~= all);
        assert(got =~= got + all.skip(k));
        steps
    } else {
        assert(message(all.take(k)) is More);
        let count = message(all.take(k))->More_count as int;
        let bytes = all.subrange(k, k + count);
        let next = read_part(start, steps, got, said, go, message, all.take(k), bytes);
        assert(all.take(k) + bytes =~= all.take(k + count));
        assert(got + bytes + all.skip(k + count) =~= got + all.skip(k));
        read_through(start, next, got + bytes, said, go, message, all, k + count)
    }
}

/// The client's methods are read.
proof fn read_methods_through<T, A: Authentication>(
    start: SocketView<T, A>,
    methods: Seq<u8>,
) -> (r: Seq<Step<T, A::Item>>)
    requires
        !start.session.config.skip_auth,
        methods.len() <= 255,
    ensures
        reached(
            start,
            r,
            greeting(methods),
            Seq::empty(),
            start.read_methods(greeting(methods)),
        ),
{
    let all = greeting(methods);
    let none: Seq<Step<T, A::Item>> = Seq::empty();
    let go = |part: Seq<u8>| start.read_methods(part);
    let message = |part: Seq<u8>| methods_message(part);
    greeting_round_trip(methods, Seq::empty());
    assert(all + Seq::<u8>::empty() =~= all);
    methods_read_exactly(all);
    assert forall|part: Seq<u8>, bytes: Seq<u8>| #[trigger]
        reads_on(start, go, message, part, bytes) by {
        reveal(reads_on);
    }
    assert(all.take(0) =~= Seq::<u8>::empty());
    assert(Seq::<u8>::empty() + all.skip(0) =~= all);
    assert(reached(start, none, Seq::empty(), Seq::empty(), go(all.take(0)))) by {
        reveal(reached);
    }
    read_through(start, none, Seq::empty(), Seq::empty(), go, message, all, 0)
}

/// The client's credentials are read.
proof fn read_credentials_through<T, A: Authentication>(
    start: SocketView<T, A>,
    steps: Seq<Step<T, A::Item>>,
    got: Seq<u8>,
    said: Seq<u8>,
    all: Seq<u8>,
) -> (r: Seq<Step<T, A::Item>>)
    requires
        reached(start, steps, got, said, start.read_credentials(Seq::empty())),
        credentials_message(all) matches Message::Done { value, used } && used == all.len(),
    ensures
        reached(start, r, got + all, said, start.read_credentials(all)),
{
    let go = |part: Seq<u8>| start.read_credentials(part);
    let message = |part: Seq<u8>| credentials_message(part);
    credentials_read_exactly(all);
    assert forall|part: Seq<u8>, bytes: Seq<u8>| #[trigger]
        reads_on(start, go, message, part, bytes) by {
        reveal(reads_on);
    }
    assert(all.take(0) =~= Seq::<u8>::empty());
    assert(all.skip(0) =~= all);
    read_through(start, steps, got, said, go, message, all, 0)
}

/// The client's request is read.
proof fn read_command_through<T, A: Authentication>(
    start: SocketView<T, A>,
    steps: Seq<Step<T, A::Item>>,
    got: Seq<u8>,
    said: Seq<u8>,
    socket: SocketView<T, A>,
    all: Seq<u8>,
) -> (r: Seq<Step<T, A::Item>>)
    requires
        reached(start, steps, got, said, socket.read_command(Seq::empty())),
        socket.inner == start.inner,
        command_message(all) matches Message::Done { value, used } && used == all.len(),
    ensures
        reached(start, r, got + all, said, socket.read_command(all)),
{
    let go = |part: Seq<u8>| socket.read_command(part);
    let message = |part: Seq<u8>| command_message(part);
    request_read_exactly(all);
    assert forall|part: Seq<u8>, bytes: Seq<u8>| #[trigger]
        reads_on(start, go, message, part, bytes) by {
        reveal(reads_on);
    }
    assert(all.take(0) =~= Seq::<u8>::empty());
    assert(all.skip(0) =~= all);
    read_through(start, steps, got, said, go, message, all, 0)
}

/// The client is told the method.
proof fn accept_through<T, A: Authentication>(
    start: SocketView<T, A>,
    x: Exchange,
) -> (r: Seq<Step<T, A::Item>>)
    requires
        !start.session.config.skip_auth,
        x.method_chosen(start.session.config),
    ensures
        reached(
            start,
            r,
            greeting(x.methods),
            method_reply(x.method),
            start.method_accepted(x.method),
        ),
{
    let all = greeting(x.methods);
    let reply = method_reply(x.method);
    greeting_round_trip(x.methods, Seq::empty());
    assert(all + Seq::<u8>::empty() =~= all);
    let greeted = read_methods_through(start, x.methods);
    let upgrade = UpgradeView {
        socket: start,
        stage: StageView::AcceptingMethod { method: x.method, reply },
    };
    assert(Seq::<u8>::empty() + reply =~= reply);
    extend(start, greeted, all, Seq::empty(), upgrade, EventView::Done)
}

/// The client gets as far as the authentication.
proof fn ask_through<T, A: Authentication>(
    start: SocketView<T, A>,
    x: Exchange,
) -> (r: Seq<Step<T, A::Item>>)
    requires
        !start.session.config.skip_auth,
        start.session.config.auth is Some,
        x.method_chosen(start.session.config),
        x.login_given(start.session.config),
    ensures
        reached(
            start,
            r,
            x.hello(start.session.config),
            method_reply(x.method),
            start.at(
                StageView::Authenticating { method: x.method, credentials: x.asked() },
            ),
        ),
{
    let accepted = accept_through(start, x);
    match x.login {
        Some((version, username, password)) => {
            let all = login(version, username, password);
            login_round_trip(version, username, password, Seq::empty());
            assert(all + Seq::<u8>::empty() =~= all);
            read_credentials_through(
                start,
                accepted,
                greeting(x.methods),
                method_reply(x.method),
                all,
            )
        },
        None => accepted,
    }
}

/// The client gets through the handshake. `item` is what the authentication knows of it.
proof fn handshake_through<T, A: Authentication>(
    start: SocketView<T, A>,
    x: Exchange,
    item: A::Item,
) -> (r: (Seq<Step<T, A::Item>>, SocketView<T, A>))
    requires
        x.keeps_to_handshake(start.session.config),
    ensures
        reached(
            start,
            r.0,
            x.hello(start.session.config),
            x.welcome(start.session.config),
            r.1.read_command(Seq::empty()),
        ),
        r.1.inner == start.inner,
        r.1.session == (SessionView { credentials: r.1.session.credentials, ..start.session }),
{
    let config = start.session.config;
    if config.skip_auth {
        let none: Seq<Step<T, A::Item>> = Seq::empty();
        assert(reached(start, none, Seq::empty(), Seq::empty(), start.upgrade())) by {
            reveal(reached);
        }
        (none, start)
    } else if config.auth is None {
        (accept_through(start, x), start)
    } else {
        let hello = x.hello(config);
        let said = method_reply(x.method);
        let inside = SocketView {
            session: SessionView { credentials: Some(item), ..start.session },
            ..start
        };
        let asked = ask_through(start, x);
        let asking = UpgradeView {
            socket: start,
            stage: StageView::Authenticating { method: x.method, credentials: x.asked() },
        };
        let answered = extend(start, asked, hello, said, asking, EventView::Answer(Some(item)));
        if x.login is Some {
            let granting = UpgradeView {
                socket: start,
                stage: StageView::Granting {
                    credentials: item,
                    reply: auth_reply(consts::SOCKS5_REPLY_SUCCEEDED),
                },
            };
            (extend(start, answered, hello, said, granting, EventView::Done), inside)
        } else {
            (answered, inside)
        }
    }
}

/// The client makes its request.
proof fn request_through<T, A: Authentication>(
    start: SocketView<T, A>,
    x: Exchange,
    item: A::Item,
) -> (r: (Seq<Step<T, A::Item>>, SocketView<T, A>))
    requires
        x.keeps_to_handshake(start.session.config),
        x.target.encodable(),
    ensures
        reached(
            start,
            r.0,
            x.hello(start.session.config) + x.request(),
            x.welcome(start.session.config),
            r.1.requested(x.cmd, x.target.on_wire()),
        ),
        r.1.inner == start.inner,
        r.1.session == (SessionView { credentials: r.1.session.credentials, ..start.session }),
{
    let config = start.session.config;
    let (greeted, socket) = handshake_through(start, x, item);
    let all = x.request();
    request_round_trip(x.cmd, x.rsv, x.target, Seq::empty());
    assert(all + Seq::<u8>::empty() =~= all);
    let asked = read_command_through(
        start,
        greeted,
        x.hello(config),
        x.welcome(config),
        socket,
        all,
    );
    (asked, socket)
}

/// The client is told that its request was granted, and data is relayed for it.
proof fn relay_through<T, A: Authentication>(
    start: SocketView<T, A>,
    steps: Seq<Step<T, A::Item>>,
    got: Seq<u8>,
    said: Seq<u8>,
    socket: SocketView<T, A>,
    addr: SocketAddrView,
    relay: Relay,
) -> (r: Seq<Step<T, A::Item>>)
    requires
        reached(start, steps, got, said, socket.reply_success(addr, relay)),
        socket.inner == start.inner,
    ensures
        reached(
            start,
            r,
            got,
            said + reply_bytes(ReplyError::Succeeded, addr),
            ProgressView::Finished(socket),
        ),
{
    let reply = reply_bytes(ReplyError::Succeeded, addr);
    let replying = UpgradeView { socket, stage: StageView::Replying { reply, relay } };
    let flushing = UpgradeView { socket, stage: StageView::Flushing { relay } };
    let relaying = UpgradeView { socket, stage: StageView::Relaying { relay } };
    let replied = extend(start, steps, got, said, replying, EventView::Done);
    let flushed = extend(start, replied, got, said + reply, flushing, EventView::Done);
    extend(start, flushed, got, said + reply, relaying, EventView::Done)
}

/// What a client is told when its request has been carried out, with a UDP socket at
/// `port`; where the server does not execute commands, it is told nothing.
pub open spec fn granting_reply<T, A: Authentication>(
    start: SocketView<T, A>,
    cmd: Socks5Command,
    port: u16,
) -> Seq<u8> {
    if !start.session.config.execute_command {
        Seq::empty()
    } else if cmd == Socks5Command::TCPConnect {
        reply_bytes(ReplyError::Succeeded, connected_addr())
    } else {
        reply_bytes(
            ReplyError::Succeeded,
            SocketAddrView::of(start.session.reply_ip->0, port),
        )
    }
}

/// The client's request, once it can be carried out, is carried out.
proof fn execute_through<T, A: Authentication>(
    start: SocketView<T, A>,
    steps: Seq<Step<T, A::Item>>,
    got: Seq<u8>,
    said: Seq<u8>,
    socket: SocketView<T, A>,
    cmd: Socks5Command,
    port: u16,
) -> (r: (Seq<Step<T, A::Item>>, SocketView<T, A>))
    requires
        reached(start, steps, got, said, socket.execute()),
        socket.inner == start.inner,
        socket.session.config == start.session.config,
        socket.session.reply_ip == start.session.reply_ip,
        socket.session.cmd == Some(cmd),
        socket.supports(cmd),
        socket.session.config.execute_command ==> match cmd {
            Socks5Command::TCPConnect => socket.session.target_addr matches Some(
                TargetView::Ip(_),
            ),
            _ => socket.session.reply_ip is Some,
        },
    ensures
        reached(
            start,
            r.0,
            got,
            said + granting_reply(start, cmd, port),
            ProgressView::Finished(r.1),
        ),
{
    if !socket.session.config.execute_command {
        assert(said + Seq::<u8>::empty() =~= said);
        (steps, socket)
    } else {
        let executed = SocketView {
            session: SessionView { cmd: None, ..socket.session },
            ..socket
        };
        if cmd == Socks5Command::TCPConnect {
            let addr = socket.session.target_addr->0->Ip_0;
            let connecting = UpgradeView {
                socket: executed,
                stage: StageView::Connecting { addr },
            };
            let setting = UpgradeView { socket: executed, stage: StageView::SettingNodelay };
            let first = extend(start, steps, got, said, connecting, EventView::Done);
            let ready = extend(start, first, got, said, setting, EventView::Done);
            let addr = connected_addr();
            (relay_through(start, ready, got, said, executed, addr, Relay::Tcp), executed)
        } else {
            let ip = socket.session.reply_ip->0;
            let binding = UpgradeView { socket: executed, stage: StageView::BindingUdp };
            let locating = UpgradeView {
                socket: executed,
                stage: StageView::LocatingUdp { ip },
            };
            let first = extend(start, steps, got, said, binding, EventView::Done);
            let ready = extend(start, first, got, said, locating, EventView::Port(port));
            let addr = SocketAddrView::of(ip, port);
            (relay_through(start, ready, got, said, executed, addr, Relay::Udp), executed)
        }
    }
}

/// A client that keeps to the protocol is served: if it supports a method that the server
/// accepts, sends credentials when it is asked for them, and asks for a command that the
/// server supports, then all of it is read, and, provided that the authentication lets
/// it in and the network does its part, its request is carried out and the client is told
/// so.
///
/// A connection can only be made to a domain name where the server resolves names, and
/// a UDP relay needs an address for the reply.
pub proof fn honest_client_served<T, A: Authentication>(
    start: SocketView<T, A>,
    x: Exchange,
    item: A::Item,
    addr: SocketAddrView,
    port: u16,
)
    requires
        x.keeps_to_handshake(start.session.config),
        x.target.encodable(),
        x.cmd == Socks5Command::TCPConnect || (x.cmd == Socks5Command::UDPAssociate
            && start.session.config.allow_udp),
        addr.wf(),
        start.session.config.execute_command ==> match x.cmd {
            Socks5Command::TCPConnect => x.target is Ip || start.session.config.dns_resolve,
            _ => start.session.reply_ip is Some,
        },
    ensures
        exists|steps: Seq<Step<T, A::Item>>|
            {
                &&& #[trigger] run(start, steps)
                &&& progress(start, steps) is Finished
                &&& received(steps) == x.hello(start.session.config) + x.request()
                &&& sent(start, steps) == x.welcome(start.session.config) + granting_reply(
                    start,
                    x.cmd,
                    port,
                )
            },
{
    let config = start.session.config;
    let (asked, socket) = request_through(start, x, item);
    let got = x.hello(config) + x.request();
    let said = x.welcome(config);
    let with_request = SocketView {
        session: SessionView {
            cmd: Some(x.cmd),
            target_addr: Some(x.target.on_wire()),
            ..socket.session
        },
        ..socket
    };
    let done = match x.target {
        TargetView::Domain(name, domain_port) if config.dns_resolve => {
            let resolving = SocketView {
                session: with_request.session.resolving(),
                ..with_request
            };
            let upgrade = UpgradeView {
                socket: resolving,
                stage: StageView::Resolving { name, port: domain_port },
            };
            let resolved = extend(start, asked, got, said, upgrade, EventView::Resolved(addr));
            let with_addr = SocketView {
                session: resolving.session.resolved(addr),
                ..resolving
            };
            execute_through(start, resolved, got, said, with_addr, x.cmd, port).0
        },
        _ => execute_through(start, asked, got, said, with_request, x.cmd, port).0,
    };
    reveal(reached);
    assert(run(start, done));
}

/// A client that gets through the handshake and asks for a command that the server does
/// not support is told so, and the service ends.
pub proof fn unsupported_command_refused<T, A: Authentication>(
    start: SocketView<T, A>,
    x: Exchange,
    item: A::Item,
)
    requires
        x.keeps_to_handshake(start.session.config),
        x.target.encodable(),
        x.cmd == Socks5Command::TCPBind || (x.cmd == Socks5Command::UDPAssociate
            && !start.session.config.allow_udp),
    ensures
        exists|steps: Seq<Step<T, A::Item>>|
            {
                &&& #[trigger] run(start, steps)
                &&& progress(start, steps) == ProgressView::<T, A>::Failed(
                    ErrorView::ReplyError(ReplyError::CommandNotSupported),
                )
                &&& received(steps) == x.hello(start.session.config) + x.request()
                &&& sent(start, steps) == x.welcome(start.session.config) + reply_bytes(
                    ReplyError::CommandNotSupported,
                    unspecified_addr(),
                )
            },
{
    let config = start.session.config;
    let (asked, socket) = request_through(start, x, item);
    let got = x.hello(config) + x.request();
    let said = x.welcome(config);
    let reply = reply_bytes(ReplyError::CommandNotSupported, unspecified_addr());
    let refusing = UpgradeView { socket, stage: StageView::RefusingCommand { reply } };
    let flushing = UpgradeView { socket, stage: StageView::FlushingRefusal };
    let refused = extend(start, asked, got, said, refusing, EventView::Done);
    let done = extend(start, refused, got, said + reply, flushing, EventView::Done);
    reveal(reached);
    assert(run(start, done));
}

/// A client whose credentials, or whose lack of them, the authentication turns down is told
/// so, and the service ends.
pub proof fn unwelcome_client_denied<T, A: Authentication>(start: SocketView<T, A>, x: Exchange)
    requires
        !start.session.config.skip_auth,
        start.session.config.auth is Some,
        x.method_chosen(start.session.config),
        x.login_given(start.session.config),
    ensures
        exists|steps: Seq<Step<T, A::Item>>|
            {
                &&& #[trigger] run(start, steps)
                &&& progress(start, steps) == ProgressView::<T, A>::Failed(
                    authentication_rejected(),
                )
                &&& received(steps) == x.hello(start.session.config)
                &&& sent(start, steps) == method_reply(x.method) + auth_reply(
                    consts::SOCKS5_AUTH_METHOD_NOT_ACCEPTABLE,
                )
            },
{
    let hello = x.hello(start.session.config);
    let said = method_reply(x.method);
    let asked = ask_through(start, x);
    let asking = UpgradeView {
        socket: start,
        stage: StageView::Authenticating { method: x.method, credentials: x.asked() },
    };
    let denying = UpgradeView {
        socket: start,
        stage: StageView::Denying {
            reply: auth_reply(consts::SOCKS5_AUTH_METHOD_NOT_ACCEPTABLE),
            error: authentication_rejected(),
        },
    };
    let answered = extend(start, asked, hello, said, asking, EventView::Answer(None));
    let done = extend(start, answered, hello, said, denying, EventView::Done);
    reveal(reached);
    assert(run(start, done));
}

/// A client none of whose methods will do is told so, and the service ends.
pub proof fn unacceptable_methods_refused<T, A: Authentication>(
    start: SocketView<T, A>,
    methods: Seq<u8>,
)
    requires
        !start.session.config.skip_auth,
        methods.len() <= 255,
        chosen_method(start.session.config, methods) is None,
    ensures
        exists|steps: Seq<Step<T, A::Item>>|
            {
                &&& #[trigger] run(start, steps)
                &&& progress(start, steps) == ProgressView::<T, A>::Failed(
                    ErrorView::AuthMethodUnacceptable(methods),
                )
                &&& received(steps) == greeting(methods)
                &&& sent(start, steps) == method_reply(consts::SOCKS5_AUTH_METHOD_NOT_ACCEPTABLE)
            },
{
    let all = greeting(methods);
    let reply = method_reply(consts::SOCKS5_AUTH_METHOD_NOT_ACCEPTABLE);
    greeting_round_trip(methods, Seq::empty());
    assert(all + Seq::<u8>::empty() =~= all);
    let greeted = read_methods_through(start, methods);
    let refusing = UpgradeView {
        socket: start,
        stage: StageView::RefusingMethod {
            reply,
            error: ErrorView::AuthMethodUnacceptable(methods),
        },
    };
    let done = extend(start, greeted, all, Seq::empty(), refusing, EventView::Done);
    assert(Seq::<u8>::empty() + reply =~= reply);
    reveal(reached);
    assert(run(start, done));
}

} // verus!
