//! What holds of the service of a client as a whole, whatever the client, the
//! authentication and the network do.

use vstd::prelude::*;

use crate::addr::SocketAddrView;
use crate::auth::Authentication;
use crate::command::Socks5Command;
use crate::config::ConfigView;
use crate::consts;
use crate::error::{Context, ErrorView};
use crate::message::{read_exactly, Message};
use crate::protocol::{
    auth_reply, authentication_rejected, chosen_method, command_message, credentials_message,
    method_reply, methods_message, unspecified_addr,
};
use crate::reply::{reply_bytes, ReplyError};
use crate::socket::{SessionView, SocketView};
use crate::target::TargetView;
use crate::upgrade::{
    connected_addr, ActionView, EventView, ProgressView, Relay, StageView, UpgradeView,
};
use crate::wire::{
    credentials_read_exactly, greeting, greeting_canonical, login, login_canonical, login_text,
    methods_read_exactly, request, request_canonical, request_read_exactly,
};

verus! {

/// A step of a run: the stream after the pending action, and how the action went.
pub struct Step<T, I> {
    pub stream: T,
    pub event: EventView<I>,
}

/// How far the service of the client at `start` has come after `steps`.
pub open spec fn progress<T, A: Authentication>(
    start: SocketView<T, A>,
    steps: Seq<Step<T, A::Item>>,
) -> ProgressView<T, A>
    decreases steps.len(),
{
    if steps.len() == 0 {
        start.upgrade()
    } else {
        let step = steps.last();
        match progress(start, steps.drop_last()) {
            ProgressView::Pending(upgrade) => (UpgradeView {
                socket: SocketView { inner: step.stream, ..upgrade.socket },
                ..upgrade
            }).resume(step.event),
            over => over,
        }
    }
}

/// The driver did what it had to in each step, and reported how that went.
pub open spec fn run<T, A: Authentication>(
    start: SocketView<T, A>,
    steps: Seq<Step<T, A::Item>>,
) -> bool
    decreases steps.len(),
{
    steps.len() > 0 ==> {
        &&& run(start, steps.drop_last())
        &&& progress(start, steps.drop_last()) matches ProgressView::Pending(upgrade)
        &&& upgrade.action().answered_by(steps.last().event)
    }
}

/// The octets that the client sent and the server read.
pub open spec fn received<T, I>(steps: Seq<Step<T, I>>) -> Seq<u8>
    decreases steps.len(),
{
    if steps.len() == 0 {
        Seq::empty()
    } else {
        match steps.last().event {
            EventView::Read(bytes) => received(steps.drop_last()) + bytes,
            _ => received(steps.drop_last()),
        }
    }
}

/// The octets that the server wrote to the client, provided that a write in one go takes
/// all of its octets.
pub open spec fn sent<T, A: Authentication>(
    start: SocketView<T, A>,
    steps: Seq<Step<T, A::Item>>,
) -> Seq<u8>
    decreases steps.len(),
{
    if steps.len() == 0 {
        Seq::empty()
    } else {
        let before = sent(start, steps.drop_last());
        match (progress(start, steps.drop_last()), steps.last().event) {
            (ProgressView::Pending(upgrade), EventView::Done) => match upgrade.action() {
                ActionView::Write(bytes) => before + bytes,
                ActionView::WriteAll(bytes) => before + bytes,
                _ => before,
            },
            _ => before,
        }
    }
}

/// In step `k` the action was `action`, and it went as `event` tells.
pub open spec fn performed_in<T, A: Authentication>(
    start: SocketView<T, A>,
    steps: Seq<Step<T, A::Item>>,
    k: int,
    action: ActionView,
    event: EventView<A::Item>,
) -> bool {
    &&& 0 <= k < steps.len()
    &&& progress(start, steps.take(k)) matches ProgressView::Pending(upgrade)
    &&& upgrade.action() == action
    &&& steps[k].event == event
}

/// In some step the action was `action`, and it went as `event` tells.
pub open spec fn performed<T, A: Authentication>(
    start: SocketView<T, A>,
    steps: Seq<Step<T, A::Item>>,
    action: ActionView,
    event: EventView<A::Item>,
) -> bool {
    exists|k: int| performed_in(start, steps, k, action, event)
}

/// What a client says to the server: the methods that it supports, with the method that
/// the server picks, its credentials, if it is asked for them, and its request.
pub struct Exchange {
    pub methods: Seq<u8>,
    pub method: u8,
    pub login: Option<(u8, Seq<char>, Seq<char>)>,
    pub cmd: Socks5Command,
    pub rsv: u8,
    pub target: TargetView,
}

impl Exchange {
    /// The client's part of the handshake.
    pub open spec fn hello<A>(self, config: ConfigView<A>) -> Seq<u8> {
        if config.skip_auth {
            Seq::empty()
        } else {
            match self.login {
                Some((version, username, password)) => greeting(self.methods) + login(
                    version,
                    username,
                    password,
                ),
                None => greeting(self.methods),
            }
        }
    }

    /// The server's part of the handshake.
    pub open spec fn welcome<A>(self, config: ConfigView<A>) -> Seq<u8> {
        if config.skip_auth {
            Seq::empty()
        } else if self.login is Some {
            method_reply(self.method) + auth_reply(consts::SOCKS5_REPLY_SUCCEEDED)
        } else {
            method_reply(self.method)
        }
    }

    /// What the authentication is asked about.
    pub open spec fn asked(self) -> Option<(Seq<char>, Seq<char>)> {
        match self.login {
            Some((_, username, password)) => Some((username, password)),
            None => None,
        }
    }

    /// The client's request.
    pub open spec fn request(self) -> Seq<u8> {
        request(self.cmd, self.rsv, self.target)
    }

    /// The server picks the method out of those that the client supports.
    pub open spec fn method_chosen<A>(self, config: ConfigView<A>) -> bool {
        &&& self.methods.len() <= 255
        &&& chosen_method(config, self.methods) == Some(self.method)
    }

    /// The client sends its credentials if, and only if, it is asked for them.
    pub open spec fn login_given<A>(self, config: ConfigView<A>) -> bool {
        &&& self.login is Some <==> config.auth is Some && self.method
            == consts::SOCKS5_AUTH_METHOD_PASSWORD
        &&& self.login matches Some((_, username, password)) ==> login_text(username)
            && login_text(password)
    }

    /// The client does its part of the handshake, where there is one.
    pub open spec fn keeps_to_handshake<A>(self, config: ConfigView<A>) -> bool {
        !config.skip_auth ==> self.method_chosen(config) && self.login_given(config)
    }

    /// The client got through the handshake, and `credentials` is what is known of it:
    /// where there is an authentication, it let the client in; where there is none, or
    /// where the handshake is left out, nothing new is known.
    pub open spec fn let_in<T, A: Authentication>(
        self,
        start: SocketView<T, A>,
        steps: Seq<Step<T, A::Item>>,
        credentials: Option<A::Item>,
    ) -> bool {
        let config = start.session.config;
        if config.skip_auth {
            credentials == start.session.credentials
        } else {
            &&& self.method_chosen(config)
            &&& self.login_given(config)
            &&& if config.auth is None {
                credentials == start.session.credentials
            } else {
                &&& credentials matches Some(item)
                &&& performed(
                    start,
                    steps,
                    ActionView::Authenticate(self.asked()),
                    EventView::Answer(Some(item)),
                )
            }
        }
    }

    /// The client got through the handshake and made its request, and nothing more was
    /// read from it.
    pub open spec fn made<T, A: Authentication>(
        self,
        start: SocketView<T, A>,
        steps: Seq<Step<T, A::Item>>,
        credentials: Option<A::Item>,
    ) -> bool {
        &&& self.let_in(start, steps, credentials)
        &&& self.target.encodable()
        &&& received(steps) == self.hello(start.session.config) + self.request()
    }

    /// The client's destination is `addr`, or was resolved to it.
    pub open spec fn leads_to<T, A: Authentication>(
        self,
        start: SocketView<T, A>,
        steps: Seq<Step<T, A::Item>>,
        addr: SocketAddrView,
    ) -> bool {
        match self.target {
            TargetView::Ip(given) => given == addr,
            TargetView::Domain(name, port) => {
                &&& start.session.config.dns_resolve
                &&& performed(
                    start,
                    steps,
                    ActionView::ResolveDns(name, port),
                    EventView::Resolved(addr),
                )
            },
        }
    }
}

/// A session that differs from another one in the credentials, the command and the
/// destination at most.
pub open spec fn same_settings<A: Authentication>(a: SessionView<A>, b: SessionView<A>) -> bool {
    a.config == b.config && a.auth == b.auth && a.reply_ip == b.reply_ip
}

/// The handshake is over.
pub open spec fn past_handshake<I>(stage: StageView<I>) -> bool {
    match stage {
        StageView::Methods { .. } => false,
        StageView::RefusingMethod { .. } => false,
        StageView::AcceptingMethod { .. } => false,
        StageView::Credentials { .. } => false,
        StageView::Authenticating { .. } => false,
        StageView::Granting { .. } => false,
        StageView::Denying { .. } => false,
        _ => true,
    }
}

/// What was exchanged before a run came to `upgrade`.
spec fn stands<T, A: Authentication>(
    start: SocketView<T, A>,
    steps: Seq<Step<T, A::Item>>,
    upgrade: UpgradeView<T, A>,
    x: Exchange,
) -> bool {
    let session = upgrade.socket.session;
    let config = start.session.config;
    let got = received(steps);
    let said = sent(start, steps);
    let fresh = SessionView { credentials: session.credentials, ..start.session };
    &&& same_settings(session, start.session)
    &&& match upgrade.stage {
        StageView::Methods { received, count, failure } => {
            &&& !config.skip_auth
            &&& session == start.session
            &&& got == received
            &&& said == Seq::<u8>::empty()
            &&& methods_message(received) == (Message::<Seq<u8>, ErrorView>::More {
                count,
                failure,
            })
        },
        StageView::RefusingMethod { reply, error } => {
            &&& !config.skip_auth
            &&& session == start.session
            &&& x.methods.len() <= 255
            &&& chosen_method(config, x.methods) is None
            &&& got == greeting(x.methods)
            &&& said == Seq::<u8>::empty()
            &&& reply == method_reply(consts::SOCKS5_AUTH_METHOD_NOT_ACCEPTABLE)
            &&& error == ErrorView::AuthMethodUnacceptable(x.methods)
        },
        StageView::AcceptingMethod { method, reply } => {
            &&& !config.skip_auth
            &&& session == start.session
            &&& x.method_chosen(config)
            &&& x.method == method
            &&& got == greeting(x.methods)
            &&& said == Seq::<u8>::empty()
            &&& reply == method_reply(method)
        },
        StageView::Credentials { received, count, failure } => {
            &&& !config.skip_auth
            &&& config.auth is Some
            &&& session == start.session
            &&& x.method_chosen(config)
            &&& x.method == consts::SOCKS5_AUTH_METHOD_PASSWORD
            &&& got == greeting(x.methods) + received
            &&& said == method_reply(x.method)
            &&& credentials_message(received) == (Message::<
                (Seq<char>, Seq<char>),
                ErrorView,
            >::More { count, failure })
        },
        StageView::Authenticating { method, credentials } => {
            &&& !config.skip_auth
            &&& config.auth is Some
            &&& session == start.session
            &&& x.method_chosen(config)
            &&& x.method == method
            &&& x.login_given(config)
            &&& x.asked() == credentials
            &&& got == x.hello(config)
            &&& said == method_reply(method)
        },
        StageView::Granting { credentials, reply } => {
            &&& !config.skip_auth
            &&& config.auth is Some
            &&& session == start.session
            &&& x.method_chosen(config)
            &&& x.method == consts::SOCKS5_AUTH_METHOD_PASSWORD
            &&& x.login_given(config)
            &&& performed(
                start,
                steps,
                ActionView::Authenticate(x.asked()),
                EventView::Answer(Some(credentials)),
            )
            &&& got == x.hello(config)
            &&& said == method_reply(x.method)
            &&& reply == auth_reply(consts::SOCKS5_REPLY_SUCCEEDED)
        },
        StageView::Denying { reply, error } => {
            &&& !config.skip_auth
            &&& config.auth is Some
            &&& session == start.session
            &&& x.method_chosen(config)
            &&& x.login_given(config)
            &&& performed(
                start,
                steps,
                ActionView::Authenticate(x.asked()),
                EventView::Answer(None),
            )
            &&& got == x.hello(config)
            &&& said == method_reply(x.method)
            &&& reply == auth_reply(consts::SOCKS5_AUTH_METHOD_NOT_ACCEPTABLE)
            &&& error == authentication_rejected()
        },
        StageView::Command { received, count, failure } => {
            &&& session == fresh
            &&& x.let_in(start, steps, session.credentials)
            &&& got == x.hello(config) + received
            &&& said == x.welcome(config)
            &&& command_message(received) == (Message::<
                (Socks5Command, TargetView),
                ErrorView,
            >::More { count, failure })
        },
        StageView::RefusingCommand { reply } => {
            &&& x.made(start, steps, session.credentials)
            &&& !start.supports(x.cmd)
            &&& said == x.welcome(config)
            &&& reply == reply_bytes(ReplyError::CommandNotSupported, unspecified_addr())
        },
        StageView::FlushingRefusal => {
            &&& x.made(start, steps, session.credentials)
            &&& !start.supports(x.cmd)
            &&& said == x.welcome(config) + reply_bytes(
                ReplyError::CommandNotSupported,
                unspecified_addr(),
            )
        },
        StageView::Resolving { name, port } => {
            &&& x.made(start, steps, session.credentials)
            &&& start.supports(x.cmd)
            &&& config.dns_resolve
            &&& x.target == TargetView::Domain(name, port)
            &&& session.cmd == Some(x.cmd)
            &&& said == x.welcome(config)
        },
        StageView::Connecting { addr } => {
            &&& executing(start, steps, session, x)
            &&& x.cmd == Socks5Command::TCPConnect
            &&& session.target_addr == Some(TargetView::Ip(addr))
            &&& x.leads_to(start, steps, addr)
            &&& said == x.welcome(config)
        },
        StageView::SettingNodelay => {
            &&& executing(start, steps, session, x)
            &&& x.cmd == Socks5Command::TCPConnect
            &&& connected(start, steps, session, x)
            &&& said == x.welcome(config)
        },
        StageView::BindingUdp => {
            &&& executing(start, steps, session, x)
            &&& x.cmd == Socks5Command::UDPAssociate
            &&& said == x.welcome(config)
        },
        StageView::LocatingUdp { ip } => {
            &&& executing(start, steps, session, x)
            &&& x.cmd == Socks5Command::UDPAssociate
            &&& start.session.reply_ip == Some(ip)
            &&& performed(start, steps, ActionView::BindUdp, EventView::Done)
            &&& said == x.welcome(config)
        },
        StageView::Replying { reply, relay } => {
            &&& executing(start, steps, session, x)
            &&& granted(start, steps, session, x, relay, reply)
            &&& said == x.welcome(config)
        },
        StageView::Flushing { relay } => {
            &&& executing(start, steps, session, x)
            &&& exists|reply: Seq<u8>| #[trigger]
                granted(start, steps, session, x, relay, reply) && said == x.welcome(config)
                    + reply
        },
        StageView::Relaying { relay } => {
            &&& executing(start, steps, session, x)
            &&& exists|reply: Seq<u8>| #[trigger]
                granted(start, steps, session, x, relay, reply) && said == x.welcome(config)
                    + reply
        },
    }
}

/// The client's request, which the server supports, is being carried out.
pub open spec fn executing<T, A: Authentication>(
    start: SocketView<T, A>,
    steps: Seq<Step<T, A::Item>>,
    session: SessionView<A>,
    x: Exchange,
) -> bool {
    &&& x.made(start, steps, session.credentials)
    &&& start.session.config.execute_command
    &&& start.supports(x.cmd)
    &&& session.cmd is None
    &&& session.target_addr matches Some(target) && (x.target == target || (target matches TargetView::Ip(
        addr,
    ) && x.leads_to(start, steps, addr)))
    &&& start.session.config.dns_resolve ==> session.target_addr->0 is Ip
}

/// A connection to the client's destination was made.
pub open spec fn connected<T, A: Authentication>(
    start: SocketView<T, A>,
    steps: Seq<Step<T, A::Item>>,
    session: SessionView<A>,
    x: Exchange,
) -> bool {
    &&& session.target_addr matches Some(TargetView::Ip(addr))
    &&& x.leads_to(start, steps, addr)
    &&& performed(
        start,
        steps,
        ActionView::Connect(addr, start.session.config.request_timeout),
        EventView::Done,
    )
}

/// The client's request was granted with `reply`: a connection to its destination was
/// made and set up as the settings say, or a UDP socket was opened, whose port the reply
/// tells.
pub open spec fn granted<T, A: Authentication>(
    start: SocketView<T, A>,
    steps: Seq<Step<T, A::Item>>,
    session: SessionView<A>,
    x: Exchange,
    relay: Relay,
    reply: Seq<u8>,
) -> bool {
    match relay {
        Relay::Tcp => {
            &&& x.cmd == Socks5Command::TCPConnect
            &&& connected(start, steps, session, x)
            &&& performed(
                start,
                steps,
                ActionView::SetNodelay(start.session.config.nodelay),
                EventView::Done,
            )
            &&& reply == reply_bytes(ReplyError::Succeeded, connected_addr())
        },
        Relay::Udp => {
            &&& x.cmd == Socks5Command::UDPAssociate
            &&& performed(start, steps, ActionView::BindUdp, EventView::Done)
            &&& start.session.reply_ip matches Some(ip)
            &&& exists|port: u16|
                #![trigger SocketAddrView::of(ip, port)]
                {
                    &&& performed(start, steps, ActionView::LocalPort, EventView::Port(port))
                    &&& reply == reply_bytes(
                        ReplyError::Succeeded,
                        SocketAddrView::of(ip, port),
                    )
                }
        },
    }
}

/// The client was served: its request was carried out, or, where the server does not
/// execute commands, left to the caller with a destination that has been resolved if the
/// server resolves domain names.
pub open spec fn served<T, A: Authentication>(
    start: SocketView<T, A>,
    steps: Seq<Step<T, A::Item>>,
    socket: SocketView<T, A>,
    x: Exchange,
) -> bool {
    let session = socket.session;
    let config = start.session.config;
    &&& same_settings(session, start.session)
    &&& x.made(start, steps, session.credentials)
    &&& start.supports(x.cmd)
    &&& session.target_addr matches Some(target) && (x.target == target || (target matches TargetView::Ip(
        addr,
    ) && x.leads_to(start, steps, addr)))
    &&& config.dns_resolve ==> session.target_addr->0 is Ip
    &&& if config.execute_command {
        &&& session.cmd is None
        &&& exists|relay: Relay, reply: Seq<u8>| #[trigger]
            granted(start, steps, session, x, relay, reply) && sent(start, steps) == x.welcome(
                config,
            ) + reply
    } else {
        &&& session.cmd == Some(x.cmd)
        &&& sent(start, steps) == x.welcome(config)
    }
}

/// The client was told that none of its methods will do.
pub open spec fn method_refused<T, A: Authentication>(
    start: SocketView<T, A>,
    steps: Seq<Step<T, A::Item>>,
    methods: Seq<u8>,
) -> bool {
    &&& !start.session.config.skip_auth
    &&& methods.len() <= 255
    &&& chosen_method(start.session.config, methods) is None
    &&& received(steps) == greeting(methods)
    &&& sent(start, steps) == method_reply(consts::SOCKS5_AUTH_METHOD_NOT_ACCEPTABLE)
}

/// The client was told that it is not let in, after the authentication turned down what
/// the client had said, or had left out.
pub open spec fn entry_denied<T, A: Authentication>(
    start: SocketView<T, A>,
    steps: Seq<Step<T, A::Item>>,
    x: Exchange,
) -> bool {
    let config = start.session.config;
    &&& !config.skip_auth
    &&& config.auth is Some
    &&& x.method_chosen(config)
    &&& x.login_given(config)
    &&& performed(start, steps, ActionView::Authenticate(x.asked()), EventView::Answer(None))
    &&& received(steps) == x.hello(config)
    &&& sent(start, steps) == method_reply(x.method) + auth_reply(
        consts::SOCKS5_AUTH_METHOD_NOT_ACCEPTABLE,
    )
}

/// What was exchanged before a run came to `p`.
spec fn accounted<T, A: Authentication>(
    start: SocketView<T, A>,
    steps: Seq<Step<T, A::Item>>,
    p: ProgressView<T, A>,
) -> bool {
    match p {
        ProgressView::Pending(upgrade) => exists|x: Exchange| stands(start, steps, upgrade, x),
        ProgressView::Finished(socket) => exists|x: Exchange| served(start, steps, socket, x),
        ProgressView::Failed(ErrorView::AuthMethodUnacceptable(methods)) => method_refused(
            start,
            steps,
            methods,
        ),
        ProgressView::Failed(ErrorView::AuthenticationRejected(text)) => exists|x: Exchange|
            entry_denied(start, steps, x),
        ProgressView::Failed(_) => true,
    }
}

/// A step keeps what earlier steps did.
proof fn performed_earlier<T, A: Authentication>(
    start: SocketView<T, A>,
    steps: Seq<Step<T, A::Item>>,
)
    requires
        steps.len() > 0,
    ensures
        forall|action: ActionView, event: EventView<A::Item>| #[trigger]
            performed(start, steps.drop_last(), action, event) ==> performed(
                start,
                steps,
                action,
                event,
            ),
{
    let before = steps.drop_last();
    assert forall|action: ActionView, event: EventView<A::Item>| #[trigger]
        performed(start, before, action, event) implies performed(start, steps, action, event) by {
        let k = choose|k: int| performed_in(start, before, k, action, event);
        assert(steps.take(k) =~= before.take(k));
        assert(performed_in(start, steps, k, action, event));
    }
}

/// The last step did the action that was pending.
proof fn performed_now<T, A: Authentication>(
    start: SocketView<T, A>,
    steps: Seq<Step<T, A::Item>>,
    upgrade: UpgradeView<T, A>,
)
    requires
        steps.len() > 0,
        progress(start, steps.drop_last()) == ProgressView::Pending(upgrade),
    ensures
        performed(start, steps, upgrade.action(), steps.last().event),
{
    let k = steps.len() - 1;
    assert(steps.take(k) =~= steps.drop_last());
    assert(performed_in(start, steps, k, upgrade.action(), steps.last().event));
}

/// A message that was asked for in full ends with what was read.
proof fn complete<V, E>(
    message: spec_fn(Seq<u8>) -> Message<V, E>,
    before: Seq<u8>,
    bytes: Seq<u8>,
)
    requires
        read_exactly(message, before + bytes),
        message(before) matches Message::More { count, failure } && bytes.len() == count,
    ensures
        message(before + bytes) matches Message::Done { value, used } ==> used == (before
            + bytes).len(),
{
    assert((before + bytes).take(before.len() as int) =~= before);
}

proof fn lemma_execute<T, A: Authentication>(
    start: SocketView<T, A>,
    steps: Seq<Step<T, A::Item>>,
    socket: SocketView<T, A>,
    x: Exchange,
)
    requires
        same_settings(socket.session, start.session),
        x.made(start, steps, socket.session.credentials),
        start.supports(x.cmd),
        socket.session.cmd == Some(x.cmd),
        socket.session.target_addr matches Some(target) && (x.target == target || (target matches TargetView::Ip(
            addr,
        ) && x.leads_to(start, steps, addr))),
        start.session.config.dns_resolve ==> socket.session.target_addr->0 is Ip,
        sent(start, steps) == x.welcome(start.session.config),
    ensures
        accounted(start, steps, socket.execute()),
{
    match socket.execute() {
        ProgressView::Pending(upgrade) => {
            assert(stands(start, steps, upgrade, x));
        },
        ProgressView::Finished(end) => {
            assert(served(start, steps, end, x));
        },
        ProgressView::Failed(e) => {},
    }
}

proof fn lemma_requested<T, A: Authentication>(
    start: SocketView<T, A>,
    steps: Seq<Step<T, A::Item>>,
    socket: SocketView<T, A>,
    x: Exchange,
)
    requires
        same_settings(socket.session, start.session),
        x.made(start, steps, socket.session.credentials),
        sent(start, steps) == x.welcome(start.session.config),
    ensures
        accounted(start, steps, socket.requested(x.cmd, x.target)),
{
    if !socket.supports(x.cmd) {
        let p = socket.refuse_command();
        assert(stands(start, steps, p->Pending_0, x));
    } else {
        let with_request = SocketView {
            session: SessionView {
                cmd: Some(x.cmd),
                target_addr: Some(x.target),
                ..socket.session
            },
            ..socket
        };
        if with_request.session.unresolved() is Some && socket.session.config.dns_resolve {
            let p = socket.requested(x.cmd, x.target);
            assert(stands(start, steps, p->Pending_0, x));
        } else {
            lemma_execute(start, steps, with_request, x);
        }
    }
}

/// The client's request is about to be read.
proof fn lemma_command_begins<T, A: Authentication>(
    start: SocketView<T, A>,
    steps: Seq<Step<T, A::Item>>,
    socket: SocketView<T, A>,
    x: Exchange,
)
    requires
        socket.session == (SessionView {
            credentials: socket.session.credentials,
            ..start.session
        }),
        x.let_in(start, steps, socket.session.credentials),
        received(steps) == x.hello(start.session.config),
        sent(start, steps) == x.welcome(start.session.config),
    ensures
        accounted(start, steps, socket.read_command(Seq::empty())),
{
    let p = socket.read_command(Seq::empty());
    assert(received(steps) =~= x.hello(start.session.config) + Seq::<u8>::empty());
    assert(stands(start, steps, p->Pending_0, x));
}

/// Methods that were asked for in full end with what was read.
proof fn greeting_complete(part: Seq<u8>, bytes: Seq<u8>)
    requires
        methods_message(part) matches Message::More { count, failure } && bytes.len() == count,
    ensures
        methods_message(part + bytes) matches Message::Done { value, used } ==> value.len() <= 255
            && part + bytes == greeting(value),
{
    let whole = part + bytes;
    let message = |octets: Seq<u8>| methods_message(octets);
    methods_read_exactly(whole);
    assert(message(part) is More);
    complete(message, part, bytes);
    if let Message::Done { value, used } = message(whole) {
        greeting_canonical(whole);
        assert(whole.take(used as int) =~= whole);
    }
}

/// A request that was asked for in full ends with what was read.
proof fn request_complete(part: Seq<u8>, bytes: Seq<u8>)
    requires
        command_message(part) matches Message::More { count, failure } && bytes.len() == count,
    ensures
        command_message(part + bytes) matches Message::Done { value, used } ==> value.1.encodable()
            && part + bytes == request(value.0, (part + bytes)[2], value.1),
{
    let whole = part + bytes;
    let message = |octets: Seq<u8>| command_message(octets);
    request_read_exactly(whole);
    assert(message(part) is More);
    complete(message, part, bytes);
    if let Message::Done { value, used } = message(whole) {
        request_canonical(whole);
        assert(whole.take(used as int) =~= whole);
    }
}

/// A part of the client's methods was read.
proof fn lemma_methods_read<T, A: Authentication>(
    start: SocketView<T, A>,
    steps: Seq<Step<T, A::Item>>,
    upgrade: UpgradeView<T, A>,
    x: Exchange,
)
    requires
        steps.len() > 0,
        progress(start, steps.drop_last()) == ProgressView::Pending(upgrade),
        stands(start, steps.drop_last(), upgrade, x),
        upgrade.action().answered_by(steps.last().event),
        steps.last().event is Read,
        upgrade.stage is Methods,
    ensures
        accounted(start, steps, progress(start, steps)),
{
    let step = steps.last();
    let bytes = step.event->Read_0;
    let config = start.session.config;
    let socket = SocketView { inner: step.stream, ..upgrade.socket };
    performed_earlier(start, steps);
    assert(sent(start, steps) == sent(start, steps.drop_last()));
    assert(received(steps) == received(steps.drop_last()) + bytes);
    let part = upgrade.stage->Methods_received;
    let whole = part + bytes;
    greeting_complete(part, bytes);
    let p = socket.read_methods(whole);
    assert(progress(start, steps) == p);
    if let Message::Done { value, used } = methods_message(whole) {
        let method = match chosen_method(config, value) {
            Some(method) => method,
            None => 0,
        };
        let y = Exchange { methods: value, method, ..x };
        assert(stands(start, steps, p->Pending_0, y));
    } else if p is Pending {
        assert(stands(start, steps, p->Pending_0, x));
    }
}

/// Credentials that were asked for in full end with what was read.
proof fn login_complete(part: Seq<u8>, bytes: Seq<u8>)
    requires
        credentials_message(part) matches Message::More { count, failure } && bytes.len() == count,
    ensures
        credentials_message(part + bytes) matches Message::Done { value, used } ==> {
            &&& login_text(value.0)
            &&& login_text(value.1)
            &&& part + bytes == login((part + bytes)[0], value.0, value.1)
        },
{
    let whole = part + bytes;
    let message = |octets: Seq<u8>| credentials_message(octets);
    credentials_read_exactly(whole);
    assert(message(part) is More);
    complete(message, part, bytes);
    if let Message::Done { value, used } = message(whole) {
        login_canonical(whole);
        assert(whole.take(used as int) =~= whole);
    }
}

/// A part of the client's credentials was read.
#[verifier::rlimit(50)]
proof fn lemma_credentials_read<T, A: Authentication>(
    start: SocketView<T, A>,
    steps: Seq<Step<T, A::Item>>,
    upgrade: UpgradeView<T, A>,
    x: Exchange,
)
    requires
        steps.len() > 0,
        progress(start, steps.drop_last()) == ProgressView::Pending(upgrade),
        stands(start, steps.drop_last(), upgrade, x),
        upgrade.action().answered_by(steps.last().event),
        steps.last().event is Read,
        upgrade.stage is Credentials,
    ensures
        accounted(start, steps, progress(start, steps)),
{
    let step = steps.last();
    let bytes = step.event->Read_0;
    let config = start.session.config;
    let socket = SocketView { inner: step.stream, ..upgrade.socket };
    performed_earlier(start, steps);
    assert(sent(start, steps) == sent(start, steps.drop_last()));
    assert(received(steps) == received(steps.drop_last()) + bytes);
    let part = upgrade.stage->Credentials_received;
    let whole = part + bytes;
    login_complete(part, bytes);
    assert(greeting(x.methods) + part + bytes =~= greeting(x.methods) + whole);
    let p = socket.read_credentials(whole);
    assert(progress(start, steps) == p);
    if let Message::Done { value, used } = credentials_message(whole) {
        let y = Exchange { login: Some((whole[0], value.0, value.1)), ..x };
        assert(stands(start, steps, p->Pending_0, y));
    } else if p is Pending {
        assert(stands(start, steps, p->Pending_0, x));
    }
}

/// A part of the client's request was read.
#[verifier::rlimit(50)]
proof fn lemma_command_read<T, A: Authentication>(
    start: SocketView<T, A>,
    steps: Seq<Step<T, A::Item>>,
    upgrade: UpgradeView<T, A>,
    x: Exchange,
)
    requires
        steps.len() > 0,
        progress(start, steps.drop_last()) == ProgressView::Pending(upgrade),
        stands(start, steps.drop_last(), upgrade, x),
        upgrade.action().answered_by(steps.last().event),
        steps.last().event is Read,
        upgrade.stage is Command,
    ensures
        accounted(start, steps, progress(start, steps)),
{
    let step = steps.last();
    let bytes = step.event->Read_0;
    let config = start.session.config;
    let socket = SocketView { inner: step.stream, ..upgrade.socket };
    performed_earlier(start, steps);
    assert(sent(start, steps) == sent(start, steps.drop_last()));
    assert(received(steps) == received(steps.drop_last()) + bytes);
    let part = upgrade.stage->Command_received;
    let whole = part + bytes;
    request_complete(part, bytes);
    assert(x.hello(config) + part + bytes =~= x.hello(config) + whole);
    let p = socket.read_command(whole);
    assert(progress(start, steps) == p);
    if let Message::Done { value, used } = command_message(whole) {
        let y = Exchange { cmd: value.0, rsv: whole[2], target: value.1, ..x };
        assert(y.let_in(start, steps, socket.session.credentials));
        lemma_requested(start, steps, socket, y);
    } else if p is Pending {
        assert(stands(start, steps, p->Pending_0, x));
    }
}

/// What was granted stays granted.
proof fn granted_earlier<T, A: Authentication>(
    start: SocketView<T, A>,
    steps: Seq<Step<T, A::Item>>,
    session: SessionView<A>,
    x: Exchange,
)
    requires
        steps.len() > 0,
    ensures
        forall|relay: Relay, reply: Seq<u8>| #[trigger]
            granted(start, steps.drop_last(), session, x, relay, reply) ==> granted(
                start,
                steps,
                session,
                x,
                relay,
                reply,
            ),
{
    performed_earlier(start, steps);
    let before = steps.drop_last();
    assert forall|relay: Relay, reply: Seq<u8>| #[trigger]
        granted(start, before, session, x, relay, reply) implies granted(
        start,
        steps,
        session,
        x,
        relay,
        reply,
    ) by {
        if relay is Udp {
            let ip = start.session.reply_ip->0;
            let port = choose|port: u16|
                #![trigger SocketAddrView::of(ip, port)]
                {
                    &&& performed(start, before, ActionView::LocalPort, EventView::Port(port))
                    &&& reply == reply_bytes(
                        ReplyError::Succeeded,
                        SocketAddrView::of(ip, port),
                    )
                };
            assert(performed(start, steps, ActionView::LocalPort, EventView::Port(port)));
            assert(reply == reply_bytes(ReplyError::Succeeded, SocketAddrView::of(ip, port)));
        }
    }
}

/// An action of the handshake was done.
proof fn lemma_handshake_done<T, A: Authentication>(
    start: SocketView<T, A>,
    steps: Seq<Step<T, A::Item>>,
    upgrade: UpgradeView<T, A>,
    x: Exchange,
)
    requires
        steps.len() > 0,
        progress(start, steps.drop_last()) == ProgressView::Pending(upgrade),
        stands(start, steps.drop_last(), upgrade, x),
        upgrade.action().answered_by(steps.last().event),
        steps.last().event is Done,
        !past_handshake(upgrade.stage),
    ensures
        accounted(start, steps, progress(start, steps)),
{
    let config = start.session.config;
    let step = steps.last();
    let socket = SocketView { inner: step.stream, ..upgrade.socket };
    let p = progress(start, steps);
    performed_earlier(start, steps);
    assert(received(steps) == received(steps.drop_last()));
    match upgrade.stage {
        StageView::RefusingMethod { reply, error } => {
            assert(sent(start, steps) =~= reply);
        },
        StageView::AcceptingMethod { method, reply } => {
            assert(sent(start, steps) =~= reply);
            let y = Exchange { login: None, ..x };
            if config.auth is None {
                lemma_command_begins(start, steps, socket, y);
            } else if method == consts::SOCKS5_AUTH_METHOD_PASSWORD {
                assert(received(steps) =~= greeting(x.methods) + Seq::<u8>::empty());
                assert(stands(start, steps, p->Pending_0, y));
            } else {
                assert(stands(start, steps, p->Pending_0, y));
            }
        },
        StageView::Granting { credentials, reply } => {
            let inside = SocketView {
                session: SessionView { credentials: Some(credentials), ..socket.session },
                ..socket
            };
            assert(x.let_in(start, steps, Some(credentials)));
            lemma_command_begins(start, steps, inside, x);
        },
        StageView::Denying { reply, error } => {
            assert(entry_denied(start, steps, x));
        },
        _ => {},
    }
}

/// An action on the client's request was done.
#[verifier::rlimit(50)]
proof fn lemma_request_done<T, A: Authentication>(
    start: SocketView<T, A>,
    steps: Seq<Step<T, A::Item>>,
    upgrade: UpgradeView<T, A>,
    x: Exchange,
)
    requires
        steps.len() > 0,
        progress(start, steps.drop_last()) == ProgressView::Pending(upgrade),
        stands(start, steps.drop_last(), upgrade, x),
        upgrade.action().answered_by(steps.last().event),
        steps.last().event is Done,
        past_handshake(upgrade.stage),
    ensures
        accounted(start, steps, progress(start, steps)),
{
    let config = start.session.config;
    let session = upgrade.socket.session;
    let p = progress(start, steps);
    performed_earlier(start, steps);
    performed_now(start, steps, upgrade);
    granted_earlier(start, steps, session, x);
    assert(received(steps) == received(steps.drop_last()));
    match upgrade.stage {
        StageView::Replying { reply, relay } => {
            assert(granted(start, steps, session, x, relay, reply));
            assert(sent(start, steps) == x.welcome(config) + reply);
            assert(stands(start, steps, p->Pending_0, x));
        },
        StageView::Flushing { relay } => {
            let reply = choose|reply: Seq<u8>| #[trigger]
                granted(start, steps.drop_last(), session, x, relay, reply) && sent(
                    start,
                    steps.drop_last(),
                ) == x.welcome(config) + reply;
            assert(granted(start, steps, session, x, relay, reply));
            assert(stands(start, steps, p->Pending_0, x));
        },
        StageView::Relaying { relay } => {
            let reply = choose|reply: Seq<u8>| #[trigger]
                granted(start, steps.drop_last(), session, x, relay, reply) && sent(
                    start,
                    steps.drop_last(),
                ) == x.welcome(config) + reply;
            assert(granted(start, steps, session, x, relay, reply));
            assert(served(start, steps, p->Finished_0, x));
        },
        _ => {
            if p is Pending {
                assert(stands(start, steps, p->Pending_0, x));
            }
        },
    }
}

/// The authentication gave its answer.
proof fn lemma_answered<T, A: Authentication>(
    start: SocketView<T, A>,
    steps: Seq<Step<T, A::Item>>,
    upgrade: UpgradeView<T, A>,
    x: Exchange,
)
    requires
        steps.len() > 0,
        progress(start, steps.drop_last()) == ProgressView::Pending(upgrade),
        stands(start, steps.drop_last(), upgrade, x),
        upgrade.action().answered_by(steps.last().event),
        steps.last().event is Answer,
    ensures
        accounted(start, steps, progress(start, steps)),
{
    let step = steps.last();
    let socket = SocketView { inner: step.stream, ..upgrade.socket };
    let p = progress(start, steps);
    performed_earlier(start, steps);
    performed_now(start, steps, upgrade);
    assert(received(steps) == received(steps.drop_last()));
    assert(sent(start, steps) == sent(start, steps.drop_last()));
    match step.event->Answer_0 {
        Some(credentials) => {
            if x.method == consts::SOCKS5_AUTH_METHOD_PASSWORD {
                assert(stands(start, steps, p->Pending_0, x));
            } else {
                let inside = SocketView {
                    session: SessionView { credentials: Some(credentials), ..socket.session },
                    ..socket
                };
                assert(x.let_in(start, steps, Some(credentials)));
                lemma_command_begins(start, steps, inside, x);
            }
        },
        None => {
            assert(stands(start, steps, p->Pending_0, x));
        },
    }
}

/// The domain name was looked up, or the port was found out.
#[verifier::rlimit(50)]
proof fn lemma_found<T, A: Authentication>(
    start: SocketView<T, A>,
    steps: Seq<Step<T, A::Item>>,
    upgrade: UpgradeView<T, A>,
    x: Exchange,
)
    requires
        steps.len() > 0,
        progress(start, steps.drop_last()) == ProgressView::Pending(upgrade),
        stands(start, steps.drop_last(), upgrade, x),
        upgrade.action().answered_by(steps.last().event),
        steps.last().event is Resolved || steps.last().event is Port,
    ensures
        accounted(start, steps, progress(start, steps)),
{
    let step = steps.last();
    let socket = SocketView { inner: step.stream, ..upgrade.socket };
    let p = progress(start, steps);
    performed_earlier(start, steps);
    performed_now(start, steps, upgrade);
    assert(received(steps) == received(steps.drop_last()));
    assert(sent(start, steps) == sent(start, steps.drop_last()));
    match step.event {
        EventView::Resolved(addr) => {
            let with_addr = SocketView { session: socket.session.resolved(addr), ..socket };
            lemma_execute(start, steps, with_addr, x);
        },
        EventView::Port(port) => {
            let ip = upgrade.stage->LocatingUdp_ip;
            let reply = reply_bytes(ReplyError::Succeeded, SocketAddrView::of(ip, port));
            assert(granted(start, steps, socket.session, x, Relay::Udp, reply));
            assert(stands(start, steps, p->Pending_0, x));
        },
        _ => {},
    }
}

/// An action failed.
proof fn lemma_failed<T, A: Authentication>(
    start: SocketView<T, A>,
    steps: Seq<Step<T, A::Item>>,
    upgrade: UpgradeView<T, A>,
    x: Exchange,
)
    requires
        steps.len() > 0,
        progress(start, steps.drop_last()) == ProgressView::Pending(upgrade),
        stands(start, steps.drop_last(), upgrade, x),
        upgrade.action().answered_by(steps.last().event),
        steps.last().event is Failed,
    ensures
        accounted(start, steps, progress(start, steps)),
{
    let config = start.session.config;
    let session = upgrade.socket.session;
    let p = progress(start, steps);
    performed_earlier(start, steps);
    granted_earlier(start, steps, session, x);
    assert(received(steps) == received(steps.drop_last()));
    assert(sent(start, steps) == sent(start, steps.drop_last()));
    if p is Finished {
        let relay = upgrade.stage->Relaying_relay;
        let reply = choose|reply: Seq<u8>| #[trigger]
            granted(start, steps.drop_last(), session, x, relay, reply) && sent(
                start,
                steps.drop_last(),
            ) == x.welcome(config) + reply;
        assert(granted(start, steps, session, x, relay, reply));
        assert(served(start, steps, p->Finished_0, x));
    }
}

/// What was exchanged before a run came to where it is.
proof fn lemma_accounted<T, A: Authentication>(
    start: SocketView<T, A>,
    steps: Seq<Step<T, A::Item>>,
)
    requires
        run(start, steps),
    ensures
        accounted(start, steps, progress(start, steps)),
    decreases steps.len(),
{
    if steps.len() == 0 {
        let x: Exchange = arbitrary();
        let p = start.upgrade();
        if start.session.config.skip_auth {
            lemma_command_begins(start, steps, start, x);
        } else {
            assert(stands(start, steps, p->Pending_0, x));
        }
    } else {
        let before = steps.drop_last();
        lemma_accounted(start, before);
        let upgrade = progress(start, before)->Pending_0;
        let x = choose|x: Exchange| stands(start, before, upgrade, x);
        match steps.last().event {
            EventView::Read(_) => match upgrade.stage {
                StageView::Methods { .. } => lemma_methods_read(start, steps, upgrade, x),
                StageView::Credentials { .. } => lemma_credentials_read(start, steps, upgrade, x),
                _ => lemma_command_read(start, steps, upgrade, x),
            },
            EventView::Done => if past_handshake(upgrade.stage) {
                lemma_request_done(start, steps, upgrade, x)
            } else {
                lemma_handshake_done(start, steps, upgrade, x)
            },
            EventView::Answer(_) => lemma_answered(start, steps, upgrade, x),
            EventView::Failed(_) => lemma_failed(start, steps, upgrade, x),
            _ => lemma_found(start, steps, upgrade, x),
        }
    }
}

/// Where there is an authentication, nothing is done for a client before the
/// authentication let it in: what is known of the client is then what the authentication
/// answered, about just the credentials that the client sent, or about none where it sent
/// none. Nothing that the client sends can leave the question out.
pub proof fn authentication_gate<T, A: Authentication>(
    start: SocketView<T, A>,
    steps: Seq<Step<T, A::Item>>,
)
    requires
        run(start, steps),
        start.session.config.auth is Some,
        !start.session.config.skip_auth,
    ensures
        match progress(start, steps) {
            ProgressView::Pending(upgrade) => past_handshake(upgrade.stage) ==> exists|x: Exchange|
                {
                    &&& upgrade.socket.session.credentials is Some
                    &&& #[trigger] x.let_in(start, steps, upgrade.socket.session.credentials)
                    &&& x.hello(start.session.config).is_prefix_of(received(steps))
                },
            ProgressView::Finished(socket) => exists|x: Exchange|
                {
                    &&& socket.session.credentials is Some
                    &&& #[trigger] x.let_in(start, steps, socket.session.credentials)
                    &&& x.hello(start.session.config).is_prefix_of(received(steps))
                },
            ProgressView::Failed(_) => true,
        },
{
    lemma_accounted(start, steps);
    match progress(start, steps) {
        ProgressView::Pending(upgrade) => {
            if past_handshake(upgrade.stage) {
                let x = choose|x: Exchange| stands(start, steps, upgrade, x);
                assert(x.let_in(start, steps, upgrade.socket.session.credentials));
            }
        },
        ProgressView::Finished(socket) => {
            let x = choose|x: Exchange| served(start, steps, socket, x);
            assert(x.let_in(start, steps, socket.session.credentials));
        },
        ProgressView::Failed(_) => {},
    }
}

/// The authentication is asked about just what the client said: the username and the
/// password that it sent, or nothing, where it sent none.
pub proof fn authentication_question<T, A: Authentication>(
    start: SocketView<T, A>,
    steps: Seq<Step<T, A::Item>>,
)
    requires
        run(start, steps),
    ensures
        progress(start, steps) matches ProgressView::Pending(upgrade) ==> (
        upgrade.action() matches ActionView::Authenticate(credentials) ==> exists|x: Exchange|
            {
                &&& #[trigger] x.method_chosen(start.session.config)
                &&& x.login_given(start.session.config)
                &&& x.asked() == credentials
                &&& received(steps) == x.hello(start.session.config)
            }),
{
    lemma_accounted(start, steps);
    if let ProgressView::Pending(upgrade) = progress(start, steps) {
        if let ActionView::Authenticate(credentials) = upgrade.action() {
            let x = choose|x: Exchange| stands(start, steps, upgrade, x);
            assert(x.method_chosen(start.session.config));
        }
    }
}

/// A client that was served got what it asked for, and was told so. Its messages were
/// read to the last octet, and nothing beyond them.
pub proof fn client_served<T, A: Authentication>(
    start: SocketView<T, A>,
    steps: Seq<Step<T, A::Item>>,
)
    requires
        run(start, steps),
    ensures
        progress(start, steps) matches ProgressView::Finished(socket) ==> exists|x: Exchange|
            served(start, steps, socket, x),
{
    lemma_accounted(start, steps);
}

/// A client none of whose methods will do is told so, and nothing else.
pub proof fn method_refusal<T, A: Authentication>(
    start: SocketView<T, A>,
    steps: Seq<Step<T, A::Item>>,
)
    requires
        run(start, steps),
    ensures
        progress(start, steps) matches ProgressView::Failed(
            ErrorView::AuthMethodUnacceptable(methods),
        ) ==> method_refused(start, steps, methods),
{
    lemma_accounted(start, steps);
}

/// A client that the authentication turned down is told so.
pub proof fn entry_denial<T, A: Authentication>(
    start: SocketView<T, A>,
    steps: Seq<Step<T, A::Item>>,
)
    requires
        run(start, steps),
    ensures
        progress(start, steps) matches ProgressView::Failed(
            ErrorView::AuthenticationRejected(text),
        ) ==> exists|x: Exchange| entry_denied(start, steps, x),
{
    lemma_accounted(start, steps);
}

/// A command is executed only if the client asked for it and the server supports it; a
/// connection goes to the client's destination and nowhere else, within the timeout; and
/// nothing is relayed before the client was told that its request was granted.
pub proof fn command_gate<T, A: Authentication>(
    start: SocketView<T, A>,
    steps: Seq<Step<T, A::Item>>,
)
    requires
        run(start, steps),
    ensures
        progress(start, steps) matches ProgressView::Pending(upgrade) ==> {
            let session = upgrade.socket.session;
            match upgrade.action() {
                ActionView::Connect(addr, timeout) => {
                    &&& timeout == start.session.config.request_timeout
                    &&& exists|x: Exchange|
                        {
                            &&& #[trigger] executing(start, steps, session, x)
                            &&& x.cmd == Socks5Command::TCPConnect
                            &&& x.leads_to(start, steps, addr)
                        }
                },
                ActionView::BindUdp => exists|x: Exchange|
                    {
                        &&& #[trigger] executing(start, steps, session, x)
                        &&& x.cmd == Socks5Command::UDPAssociate
                    },
                ActionView::Transfer => exists|x: Exchange, reply: Seq<u8>|
                    {
                        &&& executing(start, steps, session, x)
                        &&& #[trigger] granted(start, steps, session, x, Relay::Tcp, reply)
                        &&& sent(start, steps) == x.welcome(start.session.config) + reply
                    },
                ActionView::TransferUdp => exists|x: Exchange, reply: Seq<u8>|
                    {
                        &&& executing(start, steps, session, x)
                        &&& #[trigger] granted(start, steps, session, x, Relay::Udp, reply)
                        &&& sent(start, steps) == x.welcome(start.session.config) + reply
                    },
                _ => true,
            }
        },
{
    lemma_accounted(start, steps);
    if let ProgressView::Pending(upgrade) = progress(start, steps) {
        let session = upgrade.socket.session;
        let x = choose|x: Exchange| stands(start, steps, upgrade, x);
        match upgrade.action() {
            ActionView::Connect(addr, timeout) => {
                assert(executing(start, steps, session, x));
            },
            ActionView::BindUdp => {
                assert(executing(start, steps, session, x));
            },
            ActionView::Transfer => {
                let reply = choose|reply: Seq<u8>| #[trigger]
                    granted(start, steps, session, x, Relay::Tcp, reply) && sent(start, steps)
                        == x.welcome(start.session.config) + reply;
                assert(granted(start, steps, session, x, Relay::Tcp, reply));
            },
            ActionView::TransferUdp => {
                let reply = choose|reply: Seq<u8>| #[trigger]
                    granted(start, steps, session, x, Relay::Udp, reply) && sent(start, steps)
                        == x.welcome(start.session.config) + reply;
                assert(granted(start, steps, session, x, Relay::Udp, reply));
            },
            _ => {},
        }
    }
}

/// A client that asks for a command which the server does not support is told so, in a
/// reply that names no address, before the service ends with that error.
pub proof fn command_refusal<T, A: Authentication>(
    start: SocketView<T, A>,
    steps: Seq<Step<T, A::Item>>,
)
    requires
        run(start, steps),
    ensures
        progress(start, steps) matches ProgressView::Pending(upgrade) ==> (
        upgrade.stage is FlushingRefusal ==> {
            &&& exists|x: Exchange|
                {
                    &&& #[trigger] x.made(start, steps, upgrade.socket.session.credentials)
                    &&& !start.supports(x.cmd)
                    &&& sent(start, steps) == x.welcome(start.session.config) + reply_bytes(
                        ReplyError::CommandNotSupported,
                        unspecified_addr(),
                    )
                }
            &&& upgrade.resume(EventView::Done) == ProgressView::<T, A>::Failed(
                ErrorView::ReplyError(ReplyError::CommandNotSupported),
            )
        }),
{
    lemma_accounted(start, steps);
    if let ProgressView::Pending(upgrade) = progress(start, steps) {
        if upgrade.stage is FlushingRefusal {
            let x = choose|x: Exchange| stands(start, steps, upgrade, x);
            assert(x.made(start, steps, upgrade.socket.session.credentials));
        }
    }
}

/// What a client was told at most: nothing; the method; that none of its methods will do;
/// that it is not let in; the handshake's whole part, once it got through; and, once it
/// made its request, that the command is not supported, or that the request was granted,
/// where it was.
pub open spec fn told<T, A: Authentication>(
    start: SocketView<T, A>,
    steps: Seq<Step<T, A::Item>>,
    session: SessionView<A>,
    x: Exchange,
) -> bool {
    let config = start.session.config;
    let said = sent(start, steps);
    ||| said == Seq::<u8>::empty()
    ||| !config.skip_auth && x.method_chosen(config) && said == method_reply(x.method)
    ||| method_refused(start, steps, x.methods)
    ||| entry_denied(start, steps, x)
    ||| {
        &&& x.let_in(start, steps, session.credentials)
        &&& x.hello(config).is_prefix_of(received(steps))
        &&& said == x.welcome(config)
    }
    ||| {
        &&& x.made(start, steps, session.credentials)
        &&& !start.supports(x.cmd)
        &&& said == x.welcome(config) + reply_bytes(
            ReplyError::CommandNotSupported,
            unspecified_addr(),
        )
    }
    ||| {
        &&& x.made(start, steps, session.credentials)
        &&& start.supports(x.cmd)
        &&& exists|relay: Relay, reply: Seq<u8>| #[trigger]
            granted(start, steps, session, x, relay, reply) && said == x.welcome(config) + reply
    }
}

/// What the client was told when a run came to `upgrade`.
proof fn lemma_told<T, A: Authentication>(
    start: SocketView<T, A>,
    steps: Seq<Step<T, A::Item>>,
    upgrade: UpgradeView<T, A>,
    x: Exchange,
)
    requires
        stands(start, steps, upgrade, x),
    ensures
        told(start, steps, upgrade.socket.session, x),
{
    let session = upgrade.socket.session;
    match upgrade.stage {
        StageView::Flushing { relay } | StageView::Relaying { relay } => {
            let reply = choose|reply: Seq<u8>| #[trigger]
                granted(start, steps, session, x, relay, reply) && sent(start, steps)
                    == x.welcome(start.session.config) + reply;
            assert(granted(start, steps, session, x, relay, reply));
        },
        _ => {},
    }
}

/// A client is told nothing that is not so, whether it is being served, has been served or
/// could not be: it is told the method that was chosen for it, that it is let in if it is,
/// and that its request was granted if it was.
pub proof fn client_told<T, A: Authentication>(
    start: SocketView<T, A>,
    steps: Seq<Step<T, A::Item>>,
)
    requires
        run(start, steps),
    ensures
        exists|session: SessionView<A>, x: Exchange| told(start, steps, session, x),
{
    lemma_accounted(start, steps);
    match progress(start, steps) {
        ProgressView::Pending(upgrade) => {
            let x = choose|x: Exchange| stands(start, steps, upgrade, x);
            lemma_told(start, steps, upgrade, x);
        },
        ProgressView::Finished(socket) => {
            let x = choose|x: Exchange| served(start, steps, socket, x);
            assert(told(start, steps, socket.session, x));
        },
        ProgressView::Failed(e) => {
            lemma_failure_told(start, steps);
        },
    }
}

/// What the client was told when the service failed.
proof fn lemma_failure_told<T, A: Authentication>(
    start: SocketView<T, A>,
    steps: Seq<Step<T, A::Item>>,
)
    requires
        run(start, steps),
        progress(start, steps) is Failed,
    ensures
        exists|session: SessionView<A>, x: Exchange| told(start, steps, session, x),
{
    let before = steps.drop_last();
    lemma_accounted(start, before);
    lemma_accounted(start, steps);
    let upgrade = progress(start, before)->Pending_0;
    let session = upgrade.socket.session;
    let x = choose|x: Exchange| stands(start, before, upgrade, x);
    performed_earlier(start, steps);
    granted_earlier(start, steps, session, x);
    lemma_told(start, before, upgrade, x);
    match upgrade.stage {
        StageView::RefusingMethod { .. } if steps.last().event is Done => {
            assert(method_refused(start, steps, x.methods));
            assert(told(start, steps, session, x));
        },
        StageView::Denying { .. } if steps.last().event is Done => {
            let y = choose|y: Exchange| entry_denied(start, steps, y);
            assert(told(start, steps, session, y));
        },
        _ => {
            assert(sent(start, steps) == sent(start, before));
            assert(told(start, steps, session, x));
        },
    }
}

/// A request that the network does not let the server carry out fails without another word
/// to the client, and so does a UDP relay without an address for the reply: the client has
/// been told the handshake's part by then, and nothing more.
pub proof fn request_not_carried_out<T, A: Authentication>(
    start: SocketView<T, A>,
    steps: Seq<Step<T, A::Item>>,
)
    requires
        run(start, steps),
        steps.len() > 0,
        progress(start, steps) is Failed,
    ensures
        progress(start, steps.drop_last()) matches ProgressView::Pending(upgrade) && (match (
            upgrade.action()
        ) {
            ActionView::ResolveDns(..) => true,
            ActionView::Connect(..) => true,
            ActionView::SetNodelay(_) => true,
            ActionView::BindUdp => true,
            ActionView::LocalPort => true,
            _ => false,
        } ==> {
            &&& exists|x: Exchange|
                {
                    &&& #[trigger] x.made(start, steps, upgrade.socket.session.credentials)
                    &&& start.supports(x.cmd)
                    &&& sent(start, steps) == x.welcome(start.session.config)
                }
            &&& progress(start, steps) == ProgressView::<T, A>::Failed(
                match steps.last().event {
                    EventView::Failed(fault) => fault.error(),
                    _ => ErrorView::Other(Context::InvalidReplyIp),
                },
            )
        }),
{
    let before = steps.drop_last();
    lemma_accounted(start, before);
    let upgrade = progress(start, before)->Pending_0;
    let x = choose|x: Exchange| stands(start, before, upgrade, x);
    performed_earlier(start, steps);
    match upgrade.action() {
        ActionView::ResolveDns(..)
        | ActionView::Connect(..)
        | ActionView::SetNodelay(_)
        | ActionView::BindUdp
        | ActionView::LocalPort => {
            assert(received(steps) == received(before));
            assert(sent(start, steps) == sent(start, before));
            assert(x.made(start, steps, upgrade.socket.session.credentials));
        },
        _ => {},
    }
}

/// The settings, the address for replies and the authentication method on record never
/// change while a client is served.
pub proof fn settings_kept<T, A: Authentication>(
    start: SocketView<T, A>,
    steps: Seq<Step<T, A::Item>>,
)
    requires
        run(start, steps),
    ensures
        match progress(start, steps) {
            ProgressView::Pending(upgrade) => same_settings(
                upgrade.socket.session,
                start.session,
            ),
            ProgressView::Finished(socket) => same_settings(socket.session, start.session),
            ProgressView::Failed(_) => true,
        },
{
    lemma_accounted(start, steps);
}

/// No more steps than this can follow.
spec fn remaining<I>(stage: StageView<I>) -> int {
    match stage {
        StageView::Methods { received, .. } => 784 + (257 - received.len()),
        StageView::RefusingMethod { .. } => 1,
        StageView::AcceptingMethod { .. } => 784,
        StageView::Credentials { received, .. } => 270 + (513 - received.len()),
        StageView::Authenticating { .. } => 270,
        StageView::Granting { .. } => 269,
        StageView::Denying { .. } => 1,
        StageView::Command { received, .. } => 6 + (262 - received.len()),
        StageView::RefusingCommand { .. } => 2,
        StageView::FlushingRefusal => 1,
        StageView::Resolving { .. } => 6,
        StageView::Connecting { .. } => 5,
        StageView::SettingNodelay => 4,
        StageView::BindingUdp => 5,
        StageView::LocatingUdp { .. } => 4,
        StageView::Replying { .. } => 3,
        StageView::Flushing { .. } => 2,
        StageView::Relaying { .. } => 1,
    }
}

/// The service of a client ends: whatever the client sends, it ends after 1041 steps at
/// the latest.
pub proof fn run_ends<T, A: Authentication>(
    start: SocketView<T, A>,
    steps: Seq<Step<T, A::Item>>,
)
    requires
        run(start, steps),
    ensures
        steps.len() <= 1041,
        progress(start, steps) is Pending ==> steps.len() < 1041,
{
    lemma_remaining(start, steps);
}

/// A stage that reads asks for what its message lacks.
spec fn waiting<I>(stage: StageView<I>) -> bool {
    match stage {
        StageView::Methods { received, count, failure } => methods_message(received) == (Message::<
            Seq<u8>,
            ErrorView,
        >::More { count, failure }),
        StageView::Credentials { received, count, failure } => credentials_message(received) == (
        Message::<(Seq<char>, Seq<char>), ErrorView>::More { count, failure }),
        StageView::Command { received, count, failure } => command_message(received) == (Message::<
            (Socks5Command, TargetView),
            ErrorView,
        >::More { count, failure }),
        _ => true,
    }
}

/// No message is longer than this, and what is asked for is something.
proof fn messages_short(received: Seq<u8>)
    ensures
        methods_message(received) matches Message::More { count, failure } ==> received.len() < 257
            && count > 0,
        credentials_message(received) matches Message::More { count, failure } ==> received.len()
            < 513 && count > 0,
        command_message(received) matches Message::More { count, failure } ==> received.len() < 262
            && count > 0,
{
}

proof fn lemma_read_remaining<T, A: Authentication>(
    upgrade: UpgradeView<T, A>,
    event: EventView<A::Item>,
)
    requires
        waiting(upgrade.stage),
        upgrade.action().answered_by(event),
        event is Read,
    ensures
        upgrade.resume(event) matches ProgressView::Pending(next) ==> waiting(next.stage)
            && remaining(next.stage) < remaining(upgrade.stage),
{
    let bytes = event->Read_0;
    match upgrade.stage {
        StageView::Methods { received, .. } => {
            messages_short(received);
            messages_short(received + bytes);
        },
        StageView::Credentials { received, .. } => {
            messages_short(received);
            messages_short(received + bytes);
        },
        StageView::Command { received, .. } => {
            messages_short(received);
            messages_short(received + bytes);
        },
        _ => {},
    }
}

proof fn lemma_step_remaining<T, A: Authentication>(
    upgrade: UpgradeView<T, A>,
    event: EventView<A::Item>,
)
    requires
        waiting(upgrade.stage),
        upgrade.action().answered_by(event),
        event !is Read,
    ensures
        upgrade.resume(event) matches ProgressView::Pending(next) ==> waiting(next.stage)
            && remaining(next.stage) < remaining(upgrade.stage),
{
}

proof fn lemma_remaining<T, A: Authentication>(
    start: SocketView<T, A>,
    steps: Seq<Step<T, A::Item>>,
)
    requires
        run(start, steps),
    ensures
        match progress(start, steps) {
            ProgressView::Pending(upgrade) => {
                &&& waiting(upgrade.stage)
                &&& steps.len() + remaining(upgrade.stage) <= 1041
                &&& remaining(upgrade.stage) > 0
            },
            _ => steps.len() <= 1041,
        },
    decreases steps.len(),
{
    if steps.len() > 0 {
        let step = steps.last();
        lemma_remaining(start, steps.drop_last());
        let before = progress(start, steps.drop_last())->Pending_0;
        let upgrade = UpgradeView {
            socket: SocketView { inner: step.stream, ..before.socket },
            ..before
        };
        if step.event is Read {
            lemma_read_remaining(upgrade, step.event);
        } else {
            lemma_step_remaining(upgrade, step.event);
        }
    }
    if let ProgressView::Pending(upgrade) = progress(start, steps) {
        match upgrade.stage {
            StageView::Methods { received, .. } => messages_short(received),
            StageView::Credentials { received, .. } => messages_short(received),
            StageView::Command { received, .. } => messages_short(received),
            _ => {},
        }
    }
}

/// The later a run is, the fewer steps can follow.
proof fn lemma_decreasing<T, A: Authentication>(
    start: SocketView<T, A>,
    steps: Seq<Step<T, A::Item>>,
    j: int,
)
    requires
        run(start, steps),
        0 <= j < steps.len(),
    ensures
        progress(start, steps.take(j)) matches ProgressView::Pending(earlier) && (progress(
            start,
            steps,
        ) matches ProgressView::Pending(later) ==> remaining(later.stage) < remaining(
            earlier.stage,
        )),
    decreases steps.len(),
{
    let step = steps.last();
    let before = steps.drop_last();
    lemma_remaining(start, before);
    let last = progress(start, before)->Pending_0;
    let upgrade = UpgradeView {
        socket: SocketView { inner: step.stream, ..last.socket },
        ..last
    };
    if step.event is Read {
        lemma_read_remaining(upgrade, step.event);
    } else {
        lemma_step_remaining(upgrade, step.event);
    }
    assert(steps.take(j) =~= before.take(j));
    if j == before.len() {
        assert(before.take(j) =~= before);
    } else {
        lemma_decreasing(start, before, j);
    }
}

/// The first steps of a run are a run.
proof fn run_begins<T, A: Authentication>(
    start: SocketView<T, A>,
    steps: Seq<Step<T, A::Item>>,
    k: int,
)
    requires
        run(start, steps),
        0 <= k <= steps.len(),
    ensures
        run(start, steps.take(k)),
    decreases steps.len(),
{
    if k == steps.len() {
        assert(steps.take(k) =~= steps);
    } else {
        assert(steps.take(k) =~= steps.drop_last().take(k));
        run_begins(start, steps.drop_last(), k);
    }
}

/// The authentication is asked once at most while a client is served.
pub proof fn authentication_asked_once<T, A: Authentication>(
    start: SocketView<T, A>,
    steps: Seq<Step<T, A::Item>>,
    j: int,
    k: int,
)
    requires
        run(start, steps),
        0 <= j <= steps.len(),
        0 <= k <= steps.len(),
        progress(start, steps.take(j)) matches ProgressView::Pending(upgrade)
            && upgrade.action() is Authenticate,
        progress(start, steps.take(k)) matches ProgressView::Pending(upgrade)
            && upgrade.action() is Authenticate,
    ensures
        j == k,
{
    if j < k {
        run_begins(start, steps, k);
        assert(steps.take(k).take(j) =~= steps.take(j));
        lemma_decreasing(start, steps.take(k), j);
    } else if k < j {
        run_begins(start, steps, j);
        assert(steps.take(j).take(k) =~= steps.take(k));
        lemma_decreasing(start, steps.take(j), k);
    }
}

} // verus!
