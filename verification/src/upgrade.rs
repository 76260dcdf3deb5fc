//! Serving a client, from the first octet to the end of the request.
//!
//! An [`Upgrade`] decides what happens next and never does it: [`Upgrade::action`] says
//! what the driver has to do, and [`Upgrade::resume`] takes in how it went.

use vstd::prelude::*;
use vstd::slice::slice_to_vec;

use crate::addr::{IpAddr, SocketAddr, SocketAddrView};
use crate::auth::Authentication;
use crate::command::Socks5Command;
use crate::config::Config;
use crate::consts;
use crate::error::{Context, ErrorView, Fault, SocksError};
use crate::message::Message;
use crate::protocol::{
    auth_reply, authentication_rejected, chosen_method, command_message, credentials_message,
    method_reply, methods_message, unspecified_addr, MethodChoice, Reading, Reply,
    Socks5ServerProtocol, Verdict,
};
use crate::reply::{reply_bytes, ReplyError};
use crate::socket::{Session, SessionView, SocketView, Socks5Socket};
use crate::states::{AuthMethodChosen, AuthMethodsRead, Authenticated, CommandRead, Opened};
use crate::target::{TargetAddr, TargetView};

verus! {

/// What is relayed for the client once its request has been granted.
#[derive(Copy, Clone, Debug, PartialEq, Eq, Structural)]
pub enum Relay {
    Tcp,
    Udp,
}

/// What the driver has to do.
#[derive(Debug, PartialEq, Eq)]
pub enum Action {
    /// Read exactly that many octets from the client.
    ReadExact(usize),
    /// Write octets to the client, in one go.
    Write(Vec<u8>),
    /// Write all of these octets to the client.
    WriteAll(Vec<u8>),
    /// Flush what was written to the client.
    Flush,
    /// Ask the authentication about these credentials.
    Authenticate(Option<(String, String)>),
    /// Look the domain name up.
    ResolveDns(String, u16),
    /// Connect to the address, within that many seconds.
    Connect(SocketAddr, u64),
    /// Disable Nagle's algorithm on the new connection, or enable it.
    SetNodelay(bool),
    /// Relay between the client and the new connection.
    Transfer,
    /// Open a UDP socket for the client, on any port.
    BindUdp,
    /// Ask for the port of that UDP socket.
    LocalPort,
    /// Relay UDP datagrams.
    TransferUdp,
}

/// The value that an [`Action`] stands for.
#[verifier::ext_equal]
pub enum ActionView {
    ReadExact(nat),
    Write(Seq<u8>),
    WriteAll(Seq<u8>),
    Flush,
    Authenticate(Option<(Seq<char>, Seq<char>)>),
    ResolveDns(Seq<char>, u16),
    Connect(SocketAddrView, u64),
    SetNodelay(bool),
    Transfer,
    BindUdp,
    LocalPort,
    TransferUdp,
}

/// A username and a password, if there are any.
pub open spec fn credentials_view(credentials: Option<(String, String)>) -> Option<
    (Seq<char>, Seq<char>),
> {
    match credentials {
        Some((username, password)) => Some((username@, password@)),
        None => None,
    }
}

impl View for Action {
    type V = ActionView;

    open spec fn view(&self) -> ActionView {
        match *self {
            Action::ReadExact(count) => ActionView::ReadExact(count as nat),
            Action::Write(bytes) => ActionView::Write(bytes@),
            Action::WriteAll(bytes) => ActionView::WriteAll(bytes@),
            Action::Flush => ActionView::Flush,
            Action::Authenticate(credentials) => ActionView::Authenticate(
                credentials_view(credentials),
            ),
            Action::ResolveDns(name, port) => ActionView::ResolveDns(name@, port),
            Action::Connect(addr, timeout) => ActionView::Connect(addr@, timeout),
            Action::SetNodelay(value) => ActionView::SetNodelay(value),
            Action::Transfer => ActionView::Transfer,
            Action::BindUdp => ActionView::BindUdp,
            Action::LocalPort => ActionView::LocalPort,
            Action::TransferUdp => ActionView::TransferUdp,
        }
    }
}

/// How the driver's action went. `I` is what the authentication knows of a user.
#[derive(Debug, PartialEq, Eq)]
pub enum Event<I> {
    /// These octets were read.
    Read(Vec<u8>),
    /// It was done.
    Done,
    /// The authentication's answer.
    Answer(Option<I>),
    /// The first address that the domain name has.
    Resolved(SocketAddr),
    /// The port of the UDP socket.
    Port(u16),
    /// It failed.
    Failed(Fault),
}

/// The value that an [`Event`] stands for.
pub enum EventView<I> {
    Read(Seq<u8>),
    Done,
    Answer(Option<I>),
    Resolved(SocketAddrView),
    Port(u16),
    Failed(Fault),
}

impl<I> View for Event<I> {
    type V = EventView<I>;

    open spec fn view(&self) -> EventView<I> {
        match *self {
            Event::Read(bytes) => EventView::Read(bytes@),
            Event::Done => EventView::Done,
            Event::Answer(answer) => EventView::Answer(answer),
            Event::Resolved(addr) => EventView::Resolved(addr@),
            Event::Port(port) => EventView::Port(port),
            Event::Failed(fault) => EventView::Failed(fault),
        }
    }
}

impl ActionView {
    /// Whether `event` tells how this action went.
    pub open spec fn answered_by<I>(self, event: EventView<I>) -> bool {
        match (self, event) {
            (ActionView::Authenticate(_), EventView::Answer(_)) => true,
            (ActionView::Authenticate(_), _) => false,
            (_, EventView::Answer(_)) => false,
            (_, EventView::Failed(_)) => true,
            (ActionView::ReadExact(count), EventView::Read(bytes)) => bytes.len() == count,
            (ActionView::ReadExact(_), _) => false,
            (_, EventView::Read(_)) => false,
            (ActionView::ResolveDns(..), EventView::Resolved(addr)) => addr.wf(),
            (ActionView::ResolveDns(..), _) => false,
            (_, EventView::Resolved(_)) => false,
            (ActionView::LocalPort, EventView::Port(_)) => true,
            (ActionView::LocalPort, _) => false,
            (_, EventView::Port(_)) => false,
            (_, EventView::Done) => true,
        }
    }
}

/// Where the service of a client stands, between two actions.
pub enum StageView<I> {
    /// The client's methods are being read.
    Methods { received: Seq<u8>, count: nat, failure: ErrorView },
    /// The client is being told that none of its methods will do.
    RefusingMethod { reply: Seq<u8>, error: ErrorView },
    /// The client is being told the method.
    AcceptingMethod { method: u8, reply: Seq<u8> },
    /// The client's credentials are being read.
    Credentials { received: Seq<u8>, count: nat, failure: ErrorView },
    /// The authentication is being asked.
    Authenticating { method: u8, credentials: Option<(Seq<char>, Seq<char>)> },
    /// The client is being told that it is let in.
    Granting { credentials: I, reply: Seq<u8> },
    /// The client is being told that it is not let in.
    Denying { reply: Seq<u8>, error: ErrorView },
    /// The client's request is being read.
    Command { received: Seq<u8>, count: nat, failure: ErrorView },
    /// The client is being told that its command is not supported.
    RefusingCommand { reply: Seq<u8> },
    /// That is being flushed.
    FlushingRefusal,
    /// The destination's domain name is being looked up.
    Resolving { name: Seq<char>, port: u16 },
    /// A connection to the destination is being made.
    Connecting { addr: SocketAddrView },
    /// That connection is being set up.
    SettingNodelay,
    /// A UDP socket is being opened.
    BindingUdp,
    /// The port of that socket is being found out; `ip` goes with it into the reply.
    LocatingUdp { ip: Seq<u8> },
    /// The client is being told that its request was granted.
    Replying { reply: Seq<u8>, relay: Relay },
    /// That is being flushed.
    Flushing { relay: Relay },
    /// Data is being relayed for the client.
    Relaying { relay: Relay },
}

/// The value that an [`Upgrade`] stands for.
pub struct UpgradeView<T, A: Authentication> {
    pub socket: SocketView<T, A>,
    pub stage: StageView<A::Item>,
}

/// The value that a [`Progress`] stands for.
pub enum ProgressView<T, A: Authentication> {
    /// There is an action to perform.
    Pending(UpgradeView<T, A>),
    /// The client has been served.
    Finished(SocketView<T, A>),
    /// The client cannot be served.
    Failed(ErrorView),
}

/// The address in the reply to a client that was connected to its destination.
pub open spec fn connected_addr() -> SocketAddrView {
    SocketAddrView::of(seq![127u8, 0, 0, 1], 0)
}

impl<T, A: Authentication> SocketView<T, A> {
    /// The service goes on with `stage`.
    pub open spec fn at(self, stage: StageView<A::Item>) -> ProgressView<T, A> {
        ProgressView::Pending(UpgradeView { socket: self, stage })
    }

    /// The service begins: with the client's methods, or, where the handshake is left
    /// out, with its request.
    pub open spec fn upgrade(self) -> ProgressView<T, A> {
        if self.session.config.skip_auth {
            self.read_command(Seq::empty())
        } else {
            self.read_methods(Seq::empty())
        }
    }

    /// These octets of the client's methods have been received.
    pub open spec fn read_methods(self, received: Seq<u8>) -> ProgressView<T, A> {
        match methods_message(received) {
            Message::More { count, failure } => self.at(
                StageView::Methods { received, count, failure },
            ),
            Message::Failed(e) => ProgressView::Failed(e),
            Message::Done { value, used } => match chosen_method(self.session.config, value) {
                Some(method) => self.at(
                    StageView::AcceptingMethod { method, reply: method_reply(method) },
                ),
                None => self.at(
                    StageView::RefusingMethod {
                        reply: method_reply(consts::SOCKS5_AUTH_METHOD_NOT_ACCEPTABLE),
                        error: ErrorView::AuthMethodUnacceptable(value),
                    },
                ),
            },
        }
    }

    /// The client has been told the method.
    pub open spec fn method_accepted(self, method: u8) -> ProgressView<T, A> {
        if self.session.config.auth is None {
            self.read_command(Seq::empty())
        } else if method == consts::SOCKS5_AUTH_METHOD_PASSWORD {
            self.read_credentials(Seq::empty())
        } else {
            self.at(StageView::Authenticating { method, credentials: None })
        }
    }

    /// These octets of the client's credentials have been received.
    pub open spec fn read_credentials(self, received: Seq<u8>) -> ProgressView<T, A> {
        match credentials_message(received) {
            Message::More { count, failure } => self.at(
                StageView::Credentials { received, count, failure },
            ),
            Message::Failed(e) => ProgressView::Failed(e),
            Message::Done { value, used } => self.at(
                StageView::Authenticating {
                    method: consts::SOCKS5_AUTH_METHOD_PASSWORD,
                    credentials: Some(value),
                },
            ),
        }
    }

    /// The authentication gave its answer.
    pub open spec fn answered(self, method: u8, answer: Option<A::Item>) -> ProgressView<T, A> {
        match answer {
            Some(credentials) => if method == consts::SOCKS5_AUTH_METHOD_PASSWORD {
                self.at(
                    StageView::Granting {
                        credentials,
                        reply: auth_reply(consts::SOCKS5_REPLY_SUCCEEDED),
                    },
                )
            } else {
                self.let_in(credentials)
            },
            None => self.at(
                StageView::Denying {
                    reply: auth_reply(consts::SOCKS5_AUTH_METHOD_NOT_ACCEPTABLE),
                    error: authentication_rejected(),
                },
            ),
        }
    }

    /// The client is let in.
    pub open spec fn let_in(self, credentials: A::Item) -> ProgressView<T, A> {
        (SocketView {
            session: SessionView { credentials: Some(credentials), ..self.session },
            ..self
        }).read_command(Seq::empty())
    }

    /// These octets of the client's request have been received.
    pub open spec fn read_command(self, received: Seq<u8>) -> ProgressView<T, A> {
        match command_message(received) {
            Message::More { count, failure } => self.at(
                StageView::Command { received, count, failure },
            ),
            Message::Failed(e) => ProgressView::Failed(e),
            Message::Done { value, used } => self.requested(value.0, value.1),
        }
    }

    /// Whether the server has the command.
    pub open spec fn supports(self, cmd: Socks5Command) -> bool {
        match cmd {
            Socks5Command::TCPConnect => true,
            Socks5Command::TCPBind => false,
            Socks5Command::UDPAssociate => self.session.config.allow_udp,
        }
    }

    /// The client's command will not be executed.
    pub open spec fn refuse_command(self) -> ProgressView<T, A> {
        self.at(
            StageView::RefusingCommand {
                reply: reply_bytes(ReplyError::CommandNotSupported, unspecified_addr()),
            },
        )
    }

    /// The client has made its request.
    pub open spec fn requested(self, cmd: Socks5Command, target: TargetView) -> ProgressView<
        T,
        A,
    > {
        if !self.supports(cmd) {
            self.refuse_command()
        } else {
            let socket = SocketView {
                session: SessionView {
                    cmd: Some(cmd),
                    target_addr: Some(target),
                    ..self.session
                },
                ..self
            };
            match socket.session.unresolved() {
                Some((name, port)) if self.session.config.dns_resolve => (SocketView {
                    session: socket.session.resolving(),
                    ..socket
                }).at(StageView::Resolving { name, port }),
                _ => socket.execute(),
            }
        }
    }

    /// The request is carried out, where the server executes commands.
    pub open spec fn execute(self) -> ProgressView<T, A> {
        if !self.session.config.execute_command {
            ProgressView::Finished(self)
        } else {
            let socket = SocketView { session: SessionView { cmd: None, ..self.session }, ..self };
            match self.session.cmd {
                Some(Socks5Command::TCPConnect) => match self.session.target_addr {
                    Some(target) => match target.socket_addr() {
                        Ok(addr) => socket.at(StageView::Connecting { addr }),
                        Err(e) => ProgressView::Failed(e),
                    },
                    None => ProgressView::Failed(ErrorView::Other(Context::TargetAddrEmpty)),
                },
                Some(Socks5Command::UDPAssociate) if self.session.config.allow_udp => socket.at(
                    StageView::BindingUdp,
                ),
                _ => socket.refuse_command(),
            }
        }
    }

    /// The request is granted.
    pub open spec fn reply_success(self, addr: SocketAddrView, relay: Relay) -> ProgressView<T, A> {
        self.at(StageView::Replying { reply: reply_bytes(ReplyError::Succeeded, addr), relay })
    }
}

impl<T, A: Authentication> UpgradeView<T, A> {
    /// What the driver has to do.
    pub open spec fn action(self) -> ActionView {
        match self.stage {
            StageView::Methods { count, .. } => ActionView::ReadExact(count),
            StageView::RefusingMethod { reply, .. } => ActionView::WriteAll(reply),
            StageView::AcceptingMethod { reply, .. } => ActionView::Write(reply),
            StageView::Credentials { count, .. } => ActionView::ReadExact(count),
            StageView::Authenticating { credentials, .. } => ActionView::Authenticate(credentials),
            StageView::Granting { reply, .. } => ActionView::WriteAll(reply),
            StageView::Denying { reply, .. } => ActionView::WriteAll(reply),
            StageView::Command { count, .. } => ActionView::ReadExact(count),
            StageView::RefusingCommand { reply } => ActionView::Write(reply),
            StageView::FlushingRefusal => ActionView::Flush,
            StageView::Resolving { name, port } => ActionView::ResolveDns(name, port),
            StageView::Connecting { addr } => ActionView::Connect(
                addr,
                self.socket.session.config.request_timeout,
            ),
            StageView::SettingNodelay => ActionView::SetNodelay(
                self.socket.session.config.nodelay,
            ),
            StageView::BindingUdp => ActionView::BindUdp,
            StageView::LocatingUdp { .. } => ActionView::LocalPort,
            StageView::Replying { reply, .. } => ActionView::Write(reply),
            StageView::Flushing { .. } => ActionView::Flush,
            StageView::Relaying { relay: Relay::Tcp } => ActionView::Transfer,
            StageView::Relaying { relay: Relay::Udp } => ActionView::TransferUdp,
        }
    }

    /// The action failed. The service ends with an error, except that a TCP transfer
    /// which breaks off has come to its end like any other.
    pub open spec fn fail(self, fault: Fault) -> ProgressView<T, A> {
        match self.stage {
            StageView::Methods { failure, .. } => ProgressView::Failed(failure),
            StageView::RefusingMethod { .. } => ProgressView::Failed(
                ErrorView::Other(Context::ReplyMethodNotAcceptable),
            ),
            StageView::AcceptingMethod { .. } => ProgressView::Failed(
                ErrorView::Other(Context::ReplyMethod),
            ),
            StageView::Credentials { failure, .. } => ProgressView::Failed(failure),
            StageView::Granting { .. } => ProgressView::Failed(
                ErrorView::Other(Context::ReplyAuthSuccess),
            ),
            StageView::Denying { .. } => ProgressView::Failed(
                ErrorView::Other(Context::ReplyAuthNotAcceptable),
            ),
            StageView::Command { failure, .. } => ProgressView::Failed(failure),
            StageView::RefusingCommand { .. } => ProgressView::Failed(
                ErrorView::Other(Context::WriteReply),
            ),
            StageView::FlushingRefusal => ProgressView::Failed(
                ErrorView::Other(Context::FlushReply),
            ),
            StageView::Replying { .. } => ProgressView::Failed(
                ErrorView::Other(Context::WriteSuccess),
            ),
            StageView::Flushing { .. } => ProgressView::Failed(
                ErrorView::Other(Context::FlushReply),
            ),
            StageView::Relaying { relay: Relay::Tcp } => ProgressView::Finished(self.socket),
            _ => ProgressView::Failed(fault.error()),
        }
    }

    /// The action went as `event` tells. An event that does not tell how the action went
    /// leaves the service where it is.
    pub open spec fn resume(self, event: EventView<A::Item>) -> ProgressView<T, A> {
        let socket = self.socket;
        match event {
            EventView::Failed(fault) => self.fail(fault),
            EventView::Read(bytes) => match self.stage {
                StageView::Methods { received, .. } => socket.read_methods(received + bytes),
                StageView::Credentials { received, .. } => socket.read_credentials(
                    received + bytes,
                ),
                StageView::Command { received, .. } => socket.read_command(received + bytes),
                _ => ProgressView::Pending(self),
            },
            EventView::Answer(answer) => match self.stage {
                StageView::Authenticating { method, .. } => socket.answered(method, answer),
                _ => ProgressView::Pending(self),
            },
            EventView::Resolved(addr) => match self.stage {
                StageView::Resolving { .. } => (SocketView {
                    session: socket.session.resolved(addr),
                    ..socket
                }).execute(),
                _ => ProgressView::Pending(self),
            },
            EventView::Port(port) => match self.stage {
                StageView::LocatingUdp { ip } => socket.reply_success(
                    SocketAddrView::of(ip, port),
                    Relay::Udp,
                ),
                _ => ProgressView::Pending(self),
            },
            EventView::Done => match self.stage {
                StageView::RefusingMethod { error, .. } => ProgressView::Failed(error),
                StageView::AcceptingMethod { method, .. } => socket.method_accepted(method),
                StageView::Granting { credentials, .. } => socket.let_in(credentials),
                StageView::Denying { error, .. } => ProgressView::Failed(error),
                StageView::RefusingCommand { .. } => socket.at(StageView::FlushingRefusal),
                StageView::FlushingRefusal => ProgressView::Failed(
                    ErrorView::ReplyError(ReplyError::CommandNotSupported),
                ),
                StageView::Connecting { .. } => socket.at(StageView::SettingNodelay),
                StageView::SettingNodelay => socket.reply_success(connected_addr(), Relay::Tcp),
                StageView::BindingUdp => match socket.session.reply_ip {
                    Some(ip) => socket.at(StageView::LocatingUdp { ip }),
                    None => ProgressView::Failed(ErrorView::Other(Context::InvalidReplyIp)),
                },
                StageView::Replying { relay, .. } => socket.at(StageView::Flushing { relay }),
                StageView::Flushing { relay } => socket.at(StageView::Relaying { relay }),
                StageView::Relaying { .. } => ProgressView::Finished(socket),
                _ => ProgressView::Pending(self),
            },
        }
    }
}

/// The stage, with the stream in the state of the protocol that goes with it.
enum Stage<T, I> {
    Methods {
        protocol: Socks5ServerProtocol<T, Opened>,
        received: Vec<u8>,
        count: usize,
        failure: SocksError,
    },
    RefusingMethod {
        protocol: Socks5ServerProtocol<T, AuthMethodsRead>,
        reply: Vec<u8>,
        error: SocksError,
    },
    AcceptingMethod {
        protocol: Socks5ServerProtocol<T, AuthMethodChosen>,
        method: u8,
        reply: Vec<u8>,
    },
    Credentials {
        protocol: Socks5ServerProtocol<T, AuthMethodChosen>,
        received: Vec<u8>,
        count: usize,
        failure: SocksError,
    },
    Authenticating {
        protocol: Socks5ServerProtocol<T, AuthMethodChosen>,
        method: u8,
        credentials: Option<(String, String)>,
    },
    Granting {
        protocol: Socks5ServerProtocol<T, Authenticated>,
        credentials: I,
        reply: Vec<u8>,
    },
    Denying {
        protocol: Socks5ServerProtocol<T, AuthMethodChosen>,
        reply: Vec<u8>,
        error: SocksError,
    },
    Command {
        protocol: Socks5ServerProtocol<T, Authenticated>,
        received: Vec<u8>,
        count: usize,
        failure: SocksError,
    },
    RefusingCommand { inner: T, reply: Vec<u8> },
    FlushingRefusal { inner: T },
    Resolving { inner: T, name: String, port: u16 },
    Connecting { protocol: Socks5ServerProtocol<T, CommandRead>, addr: SocketAddr },
    SettingNodelay { protocol: Socks5ServerProtocol<T, CommandRead> },
    BindingUdp { protocol: Socks5ServerProtocol<T, CommandRead> },
    LocatingUdp { protocol: Socks5ServerProtocol<T, CommandRead>, ip: IpAddr },
    Replying { inner: T, reply: Vec<u8>, relay: Relay },
    Flushing { inner: T, relay: Relay },
    Relaying { inner: T, relay: Relay },
}

impl<T, I> Stage<T, I> {
    spec fn stage(self) -> StageView<I> {
        match self {
            Stage::Methods { received, count, failure, .. } => StageView::Methods {
                received: received@,
                count: count as nat,
                failure: failure@,
            },
            Stage::RefusingMethod { reply, error, .. } => StageView::RefusingMethod {
                reply: reply@,
                error: error@,
            },
            Stage::AcceptingMethod { method, reply, .. } => StageView::AcceptingMethod {
                method,
                reply: reply@,
            },
            Stage::Credentials { received, count, failure, .. } => StageView::Credentials {
                received: received@,
                count: count as nat,
                failure: failure@,
            },
            Stage::Authenticating { method, credentials, .. } => StageView::Authenticating {
                method,
                credentials: credentials_view(credentials),
            },
            Stage::Granting { credentials, reply, .. } => StageView::Granting {
                credentials,
                reply: reply@,
            },
            Stage::Denying { reply, error, .. } => StageView::Denying {
                reply: reply@,
                error: error@,
            },
            Stage::Command { received, count, failure, .. } => StageView::Command {
                received: received@,
                count: count as nat,
                failure: failure@,
            },
            Stage::RefusingCommand { reply, .. } => StageView::RefusingCommand { reply: reply@ },
            Stage::FlushingRefusal { .. } => StageView::FlushingRefusal,
            Stage::Resolving { name, port, .. } => StageView::Resolving { name: name@, port },
            Stage::Connecting { addr, .. } => StageView::Connecting { addr: addr@ },
            Stage::SettingNodelay { .. } => StageView::SettingNodelay,
            Stage::BindingUdp { .. } => StageView::BindingUdp,
            Stage::LocatingUdp { ip, .. } => StageView::LocatingUdp { ip: ip@ },
            Stage::Replying { reply, relay, .. } => StageView::Replying { reply: reply@, relay },
            Stage::Flushing { relay, .. } => StageView::Flushing { relay },
            Stage::Relaying { relay, .. } => StageView::Relaying { relay },
        }
    }

    spec fn stream(self) -> T {
        match self {
            Stage::Methods { protocol, .. } => protocol@,
            Stage::RefusingMethod { protocol, .. } => protocol@,
            Stage::AcceptingMethod { protocol, .. } => protocol@,
            Stage::Credentials { protocol, .. } => protocol@,
            Stage::Authenticating { protocol, .. } => protocol@,
            Stage::Granting { protocol, .. } => protocol@,
            Stage::Denying { protocol, .. } => protocol@,
            Stage::Command { protocol, .. } => protocol@,
            Stage::RefusingCommand { inner, .. } => inner,
            Stage::FlushingRefusal { inner } => inner,
            Stage::Resolving { inner, .. } => inner,
            Stage::Connecting { protocol, .. } => protocol@,
            Stage::SettingNodelay { protocol } => protocol@,
            Stage::BindingUdp { protocol } => protocol@,
            Stage::LocatingUdp { protocol, .. } => protocol@,
            Stage::Replying { inner, .. } => inner,
            Stage::Flushing { inner, .. } => inner,
            Stage::Relaying { inner, .. } => inner,
        }
    }
}

/// The service of a client, waiting for an action to be performed.
pub struct Upgrade<T, A: Authentication> {
    session: Session<A>,
    stage: Stage<T, A::Item>,
}

impl<T, A: Authentication> View for Upgrade<T, A> {
    type V = UpgradeView<T, A>;

    closed spec fn view(&self) -> UpgradeView<T, A> {
        UpgradeView {
            socket: SocketView { inner: self.stage.stream(), session: self.session@ },
            stage: self.stage.stage(),
        }
    }
}

/// How far the service of a client has come.
pub enum Progress<T, A: Authentication> {
    /// There is an action to perform.
    Pending(Upgrade<T, A>),
    /// The client has been served.
    Finished(Socks5Socket<T, A>),
    /// The client cannot be served.
    Failed(SocksError),
}

impl<T, A: Authentication> View for Progress<T, A> {
    type V = ProgressView<T, A>;

    open spec fn view(&self) -> ProgressView<T, A> {
        match *self {
            Progress::Pending(upgrade) => ProgressView::Pending(upgrade@),
            Progress::Finished(socket) => ProgressView::Finished(socket@),
            Progress::Failed(e) => ProgressView::Failed(e@),
        }
    }
}

/// A copy of the credentials.
fn copy_credentials(credentials: &Option<(String, String)>) -> (r: Option<(String, String)>)
    ensures
        credentials_view(r) == credentials_view(*credentials),
{
    match credentials {
        Some((username, password)) => Some((username.clone(), password.clone())),
        None => None,
    }
}

/// `bytes` after the octets of `received`.
fn extended(received: Vec<u8>, bytes: Vec<u8>) -> (r: Vec<u8>)
    ensures
        r@ == received@ + bytes@,
{
    let mut received = received;
    let mut bytes = bytes;
    received.append(&mut bytes);
    received
}

impl<A: Authentication> Session<A> {
    fn at<T>(self, stage: Stage<T, A::Item>) -> (r: Progress<T, A>)
        ensures
            r@ == (SocketView { inner: stage.stream(), session: self@ }).at(stage.stage()),
    {
        Progress::Pending(Upgrade { session: self, stage })
    }

    /// These octets of the client's methods have been received.
    fn read_methods<T>(
        self,
        protocol: Socks5ServerProtocol<T, Opened>,
        received: Vec<u8>,
    ) -> (r: Progress<T, A>)
        ensures
            r@ == (SocketView { inner: protocol@, session: self@ }).read_methods(received@),
    {
        match protocol.get_methods(received.as_slice()) {
            Reading::More { protocol, count, failure } => self.at(
                Stage::Methods { protocol, received, count, failure },
            ),
            Reading::Failed(e) => Progress::Failed(e),
            Reading::Done((protocol, methods)) => match protocol.can_accept_method(
                methods,
                &self.config,
            ) {
                MethodChoice::Accepted { protocol, method, reply } => self.at(
                    Stage::AcceptingMethod { protocol, method, reply },
                ),
                MethodChoice::Refused { protocol, reply, error } => self.at(
                    Stage::RefusingMethod { protocol, reply, error },
                ),
            },
        }
    }

    /// The client has been told the method.
    fn method_accepted<T>(
        self,
        protocol: Socks5ServerProtocol<T, AuthMethodChosen>,
        method: u8,
    ) -> (r: Progress<T, A>)
        ensures
            r@ == (SocketView { inner: protocol@, session: self@ }).method_accepted(method),
    {
        if self.config.auth().is_none() {
            self.read_command(Socks5ServerProtocol::new(protocol.into_inner()), Vec::new())
        } else if method == consts::SOCKS5_AUTH_METHOD_PASSWORD {
            self.read_credentials(protocol, Vec::new())
        } else {
            // the client hasn't provided any credentials, the authentication
            // will then check None, according to other parameters provided by the trait
            // such as IP, etc.
            self.at(Stage::Authenticating { protocol, method, credentials: None })
        }
    }

    /// These octets of the client's credentials have been received.
    fn read_credentials<T>(
        self,
        protocol: Socks5ServerProtocol<T, AuthMethodChosen>,
        received: Vec<u8>,
    ) -> (r: Progress<T, A>)
        ensures
            r@ == (SocketView { inner: protocol@, session: self@ }).read_credentials(received@),
    {
        match protocol.read_username_password(received.as_slice()) {
            Reading::More { protocol, count, failure } => self.at(
                Stage::Credentials { protocol, received, count, failure },
            ),
            Reading::Failed(e) => Progress::Failed(e),
            Reading::Done((protocol, credentials)) => self.at(
                Stage::Authenticating {
                    protocol,
                    method: consts::SOCKS5_AUTH_METHOD_PASSWORD,
                    credentials: Some(credentials),
                },
            ),
        }
    }

    /// The authentication gave its answer.
    fn answered<T>(
        self,
        protocol: Socks5ServerProtocol<T, AuthMethodChosen>,
        method: u8,
        answer: Option<A::Item>,
    ) -> (r: Progress<T, A>)
        ensures
            r@ == (SocketView { inner: protocol@, session: self@ }).answered(method, answer),
    {
        match protocol.answered(method, answer) {
            Verdict::Granted { protocol, credentials, reply: Some(reply) } => self.at(
                Stage::Granting { protocol, credentials, reply },
            ),
            Verdict::Granted { protocol, credentials, reply: None } => self.let_in(
                protocol,
                credentials,
            ),
            Verdict::Denied { protocol, reply, error } => self.at(
                Stage::Denying { protocol, reply, error },
            ),
        }
    }

    /// The client is let in.
    fn let_in<T>(
        self,
        protocol: Socks5ServerProtocol<T, Authenticated>,
        credentials: A::Item,
    ) -> (r: Progress<T, A>)
        ensures
            r@ == (SocketView { inner: protocol@, session: self@ }).let_in(credentials),
    {
        let mut session = self;
        session.credentials = Some(credentials);
        session.read_command(protocol, Vec::new())
    }

    /// These octets of the client's request have been received.
    fn read_command<T>(
        self,
        protocol: Socks5ServerProtocol<T, Authenticated>,
        received: Vec<u8>,
    ) -> (r: Progress<T, A>)
        ensures
            r@ == (SocketView { inner: protocol@, session: self@ }).read_command(received@),
    {
        match protocol.read_command(received.as_slice()) {
            Reading::More { protocol, count, failure } => self.at(
                Stage::Command { protocol, received, count, failure },
            ),
            Reading::Failed(e) => Progress::Failed(e),
            Reading::Done((protocol, cmd, target)) => self.requested(protocol, cmd, target),
        }
    }

    /// The client's command will not be executed.
    fn refuse_command<T>(self, protocol: Socks5ServerProtocol<T, CommandRead>) -> (r: Progress<
        T,
        A,
    >)
        ensures
            r@ == (SocketView { inner: protocol@, session: self@ }).refuse_command(),
    {
        let Reply { inner, bytes } = protocol.reply_error(&ReplyError::CommandNotSupported);
        self.at(Stage::RefusingCommand { inner, reply: bytes })
    }

    /// The client has made its request.
    fn requested<T>(
        self,
        protocol: Socks5ServerProtocol<T, CommandRead>,
        cmd: Socks5Command,
        target: TargetAddr,
    ) -> (r: Progress<T, A>)
        ensures
            r@ == (SocketView { inner: protocol@, session: self@ }).requested(cmd, target@),
    {
        match cmd {
            Socks5Command::UDPAssociate if !self.config.allow_udp() => {
                return self.refuse_command(protocol);
            },
            Socks5Command::TCPBind => {
                return self.refuse_command(protocol);
            },
            _ => {},
        }
        let mut session = self;
        session.cmd = Some(cmd);
        session.target_addr = Some(target);
        let inner = protocol.into_inner();
        if session.config.dns_resolve() {
            if let Some((name, port)) = session.take_domain() {
                return session.at(Stage::Resolving { inner, name, port });
            }
        }
        session.execute(inner)
    }

    /// The request is carried out, where the server executes commands.
    fn execute<T>(self, inner: T) -> (r: Progress<T, A>)
        ensures
            r@ == (SocketView { inner, session: self@ }).execute(),
    {
        if !self.config.execute_command() {
            return Progress::Finished(Socks5Socket::from_parts(inner, self));
        }
        let mut session = self;
        let cmd = session.cmd.take();
        let protocol: Socks5ServerProtocol<T, CommandRead> = Socks5ServerProtocol::new(inner);
        match cmd {
            Some(Socks5Command::TCPConnect) => match &session.target_addr {
                Some(target) => match target.to_socket_addr() {
                    Ok(addr) => session.at(Stage::Connecting { protocol, addr }),
                    Err(e) => Progress::Failed(e),
                },
                None => Progress::Failed(SocksError::Other(Context::TargetAddrEmpty)),
            },
            Some(Socks5Command::UDPAssociate) if session.config.allow_udp() => session.at(
                Stage::BindingUdp { protocol },
            ),
            _ => session.refuse_command(protocol),
        }
    }

    /// The request is granted.
    fn reply_success<T>(
        self,
        protocol: Socks5ServerProtocol<T, CommandRead>,
        addr: SocketAddr,
        relay: Relay,
    ) -> (r: Progress<T, A>)
        ensures
            r@ == (SocketView { inner: protocol@, session: self@ }).reply_success(addr@, relay),
    {
        let Reply { inner, bytes } = protocol.reply_success(addr);
        self.at(Stage::Replying { inner, reply: bytes, relay })
    }
}

impl<T, A: Authentication> Socks5Socket<T, A> {
    /// Process clients SOCKS requests
    /// This is the entry point where a whole request is processed.
    ///
    /// As long as the progress is pending, its action has to be performed, and the
    /// service resumed with how that went.
    pub fn upgrade_to_socks5(self) -> (r: Progress<T, A>)
        ensures
            r@ == self@.upgrade(),
    {
        let (inner, session) = self.into_parts();
        if !session.config.skip_auth() {
            session.read_methods(Socks5ServerProtocol::start(inner), Vec::new())
        } else {
            session.read_command(Socks5ServerProtocol::new(inner), Vec::new())
        }
    }
}

impl<T, A: Authentication> Upgrade<T, A> {
    /// What the driver has to do.
    pub fn action(&self) -> (r: Action)
        ensures
            r@ == self@.action(),
    {
        match &self.stage {
            Stage::Methods { count, .. } => Action::ReadExact(*count),
            Stage::RefusingMethod { reply, .. } => Action::WriteAll(slice_to_vec(reply.as_slice())),
            Stage::AcceptingMethod { reply, .. } => Action::Write(slice_to_vec(reply.as_slice())),
            Stage::Credentials { count, .. } => Action::ReadExact(*count),
            Stage::Authenticating { credentials, .. } => Action::Authenticate(
                copy_credentials(credentials),
            ),
            Stage::Granting { reply, .. } => Action::WriteAll(slice_to_vec(reply.as_slice())),
            Stage::Denying { reply, .. } => Action::WriteAll(slice_to_vec(reply.as_slice())),
            Stage::Command { count, .. } => Action::ReadExact(*count),
            Stage::RefusingCommand { reply, .. } => Action::Write(slice_to_vec(reply.as_slice())),
            Stage::FlushingRefusal { .. } => Action::Flush,
            Stage::Resolving { name, port, .. } => Action::ResolveDns(name.clone(), *port),
            Stage::Connecting { addr, .. } => Action::Connect(
                *addr,
                self.session.config.request_timeout(),
            ),
            Stage::SettingNodelay { .. } => Action::SetNodelay(self.session.config.nodelay()),
            Stage::BindingUdp { .. } => Action::BindUdp,
            Stage::LocatingUdp { .. } => Action::LocalPort,
            Stage::Replying { reply, .. } => Action::Write(slice_to_vec(reply.as_slice())),
            Stage::Flushing { .. } => Action::Flush,
            Stage::Relaying { relay: Relay::Tcp, .. } => Action::Transfer,
            Stage::Relaying { relay: Relay::Udp, .. } => Action::TransferUdp,
        }
    }

    /// The stream to the client, to be read from and written to.
    pub fn stream_mut(&mut self) -> (r: &mut T)
        ensures
            *r == old(self)@.socket.inner,
            final(self)@ == (UpgradeView {
                socket: SocketView { inner: *final(r), ..old(self)@.socket },
                ..old(self)@
            }),
    {
        match &mut self.stage {
            Stage::Methods { protocol, .. } => protocol.inner_mut(),
            Stage::RefusingMethod { protocol, .. } => protocol.inner_mut(),
            Stage::AcceptingMethod { protocol, .. } => protocol.inner_mut(),
            Stage::Credentials { protocol, .. } => protocol.inner_mut(),
            Stage::Authenticating { protocol, .. } => protocol.inner_mut(),
            Stage::Granting { protocol, .. } => protocol.inner_mut(),
            Stage::Denying { protocol, .. } => protocol.inner_mut(),
            Stage::Command { protocol, .. } => protocol.inner_mut(),
            Stage::RefusingCommand { inner, .. } => inner,
            Stage::FlushingRefusal { inner } => inner,
            Stage::Resolving { inner, .. } => inner,
            Stage::Connecting { protocol, .. } => protocol.inner_mut(),
            Stage::SettingNodelay { protocol } => protocol.inner_mut(),
            Stage::BindingUdp { protocol } => protocol.inner_mut(),
            Stage::LocatingUdp { protocol, .. } => protocol.inner_mut(),
            Stage::Replying { inner, .. } => inner,
            Stage::Flushing { inner, .. } => inner,
            Stage::Relaying { inner, .. } => inner,
        }
    }

    /// The settings under which the client is served.
    pub fn config(&self) -> (r: &Config<A>)
        ensures
            r@ == self@.socket.session.config,
    {
        &self.session.config
    }

    /// The action failed.
    fn fail(self, fault: Fault) -> (r: Progress<T, A>)
        ensures
            r@ == self@.fail(fault),
    {
        let Upgrade { session, stage } = self;
        let error = match stage {
            Stage::Methods { failure, .. } => failure,
            Stage::RefusingMethod { .. } => SocksError::Other(Context::ReplyMethodNotAcceptable),
            Stage::AcceptingMethod { .. } => SocksError::Other(Context::ReplyMethod),
            Stage::Credentials { failure, .. } => failure,
            Stage::Granting { .. } => SocksError::Other(Context::ReplyAuthSuccess),
            Stage::Denying { .. } => SocksError::Other(Context::ReplyAuthNotAcceptable),
            Stage::Command { failure, .. } => failure,
            Stage::RefusingCommand { .. } => SocksError::Other(Context::WriteReply),
            Stage::FlushingRefusal { .. } => SocksError::Other(Context::FlushReply),
            Stage::Replying { .. } => SocksError::Other(Context::WriteSuccess),
            Stage::Flushing { .. } => SocksError::Other(Context::FlushReply),
            Stage::Relaying { inner, relay: Relay::Tcp } => {
                return Progress::Finished(Socks5Socket::from_parts(inner, session));
            },
            _ => fault.into_error(),
        };
        Progress::Failed(error)
    }

    /// The action was done.
    fn done(self) -> (r: Progress<T, A>)
        ensures
            r@ == self@.resume(EventView::Done),
    {
        let Upgrade { session, stage } = self;
        match stage {
            Stage::RefusingMethod { error, .. } => Progress::Failed(error),
            Stage::AcceptingMethod { protocol, method, .. } => session.method_accepted(
                protocol,
                method,
            ),
            Stage::Granting { protocol, credentials, .. } => session.let_in(protocol, credentials),
            Stage::Denying { error, .. } => Progress::Failed(error),
            Stage::RefusingCommand { inner, .. } => session.at(Stage::FlushingRefusal { inner }),
            Stage::FlushingRefusal { .. } => Progress::Failed(
                SocksError::ReplyError(ReplyError::CommandNotSupported),
            ),
            Stage::Connecting { protocol, .. } => session.at(Stage::SettingNodelay { protocol }),
            Stage::SettingNodelay { protocol } => {
                let localhost: [u8; 4] = [127, 0, 0, 1];
                assert(localhost@ =~= seq![127u8, 0, 0, 1]);
                session.reply_success(
                    protocol,
                    SocketAddr::new(IpAddr::V4(localhost), 0),
                    Relay::Tcp,
                )
            },
            Stage::BindingUdp { protocol } => match session.reply_ip {
                // Respect the pre-populated reply IP address.
                Some(ip) => session.at(Stage::LocatingUdp { protocol, ip }),
                None => Progress::Failed(SocksError::Other(Context::InvalidReplyIp)),
            },
            Stage::Replying { inner, relay, .. } => session.at(Stage::Flushing { inner, relay }),
            Stage::Flushing { inner, relay } => session.at(Stage::Relaying { inner, relay }),
            Stage::Relaying { inner, .. } => Progress::Finished(
                Socks5Socket::from_parts(inner, session),
            ),
            stage => session.at(stage),
        }
    }

    /// Goes on after the action went as `event` tells. An event that does not tell how the
    /// action went leaves the service where it is.
    pub fn resume(self, event: Event<A::Item>) -> (r: Progress<T, A>)
        ensures
            r@ == self@.resume(event@),
    {
        match event {
            Event::Failed(fault) => self.fail(fault),
            Event::Done => self.done(),
            Event::Read(bytes) => {
                let Upgrade { session, stage } = self;
                match stage {
                    Stage::Methods { protocol, received, .. } => session.read_methods(
                        protocol,
                        extended(received, bytes),
                    ),
                    Stage::Credentials { protocol, received, .. } => session.read_credentials(
                        protocol,
                        extended(received, bytes),
                    ),
                    Stage::Command { protocol, received, .. } => session.read_command(
                        protocol,
                        extended(received, bytes),
                    ),
                    stage => session.at(stage),
                }
            },
            Event::Answer(answer) => {
                let Upgrade { session, stage } = self;
                match stage {
                    Stage::Authenticating { protocol, method, .. } => session.answered(
                        protocol,
                        method,
                        answer,
                    ),
                    stage => session.at(stage),
                }
            },
            Event::Resolved(addr) => {
                let Upgrade { session, stage } = self;
                match stage {
                    Stage::Resolving { inner, .. } => {
                        let mut session = session;
                        session.put_addr(addr);
                        session.execute(inner)
                    },
                    stage => session.at(stage),
                }
            },
            Event::Port(port) => {
                let Upgrade { session, stage } = self;
                match stage {
                    Stage::LocatingUdp { protocol, ip } => session.reply_success(
                        protocol,
                        SocketAddr::new(ip, port),
                        Relay::Udp,
                    ),
                    stage => session.at(stage),
                }
            },
        }
    }
}

} // verus!
