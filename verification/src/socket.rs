//! A connection to a client, with what is known of the client.

use vstd::prelude::*;
use std::ops::Deref;
use std::sync::Arc;

use crate::addr::{IpAddr, SocketAddr, SocketAddrView};
use crate::auth::{Authentication, AuthenticationMethod};
use crate::command::Socks5Command;
use crate::config::{Config, ConfigView};
use crate::target::{TargetAddr, TargetView};

verus! {

/// What is known of a client, apart from the stream to it.
pub struct Session<A: Authentication> {
    pub config: Arc<Config<A>>,
    pub auth: AuthenticationMethod,
    pub target_addr: Option<TargetAddr>,
    pub cmd: Option<Socks5Command>,
    /// Socket address which will be used in the reply message.
    pub reply_ip: Option<IpAddr>,
    /// If the client has been authenticated, that's where we store his credentials
    /// to be accessed from the socket
    pub credentials: Option<A::Item>,
}

/// The value that a [`Session`] stands for.
pub struct SessionView<A: Authentication> {
    pub config: ConfigView<A>,
    pub auth: AuthenticationMethod,
    pub target_addr: Option<TargetView>,
    pub cmd: Option<Socks5Command>,
    pub reply_ip: Option<Seq<u8>>,
    pub credentials: Option<A::Item>,
}

impl<A: Authentication> View for Session<A> {
    type V = SessionView<A>;

    open spec fn view(&self) -> SessionView<A> {
        SessionView {
            config: (*self.config)@,
            auth: self.auth,
            target_addr: match self.target_addr {
                Some(target) => Some(target@),
                None => None,
            },
            cmd: self.cmd,
            reply_ip: match self.reply_ip {
                Some(ip) => Some(ip@),
                None => None,
            },
            credentials: self.credentials,
        }
    }
}

impl<A: Authentication> SessionView<A> {
    /// The domain name that is waiting to be resolved, if the destination has one.
    pub open spec fn unresolved(self) -> Option<(Seq<char>, u16)> {
        match self.target_addr {
            Some(TargetView::Domain(name, port)) => Some((name, port)),
            _ => None,
        }
    }

    /// The session while its domain name, if it has one, is being resolved.
    pub open spec fn resolving(self) -> SessionView<A> {
        if self.unresolved() is Some {
            SessionView { target_addr: None, ..self }
        } else {
            self
        }
    }

    /// The session after its domain name was resolved.
    pub open spec fn resolved(self, addr: SocketAddrView) -> SessionView<A> {
        SessionView { target_addr: Some(TargetView::Ip(addr)), ..self }
    }
}

/// A session stands for what it holds, field by field.
pub proof fn session_parts<A: Authentication>(session: Session<A>)
    ensures
        session@.config == (*session.config)@,
        session@.auth == session.auth,
        session@.cmd == session.cmd,
        session@.credentials == session.credentials,
        match session.target_addr {
            Some(target) => session@.target_addr == Some(target@),
            None => session@.target_addr is None,
        },
        match session.reply_ip {
            Some(ip) => session@.reply_ip == Some(ip@),
            None => session@.reply_ip is None,
        },
{
}

/// A domain name, and only that, has to be resolved; the address that is found takes its
/// place, and nothing else changes.
pub proof fn resolving_changes_the_destination<A: Authentication>(
    session: SessionView<A>,
    addr: SocketAddrView,
)
    ensures
        match session.target_addr {
            Some(TargetView::Domain(name, port)) => {
                &&& session.unresolved() == Some((name, port))
                &&& session.resolving() == (SessionView { target_addr: None, ..session })
            },
            _ => session.unresolved() is None && session.resolving() == session,
        },
        session.resolved(addr) == (SessionView {
            target_addr: Some(TargetView::Ip(addr)),
            ..session
        }),
{
}

impl<A: Authentication> Session<A> {
    /// Takes out the domain name that has to be resolved, if the destination has one.
    pub fn take_domain(&mut self) -> (r: Option<(String, u16)>)
        ensures
            final(self)@ == old(self)@.resolving(),
            match r {
                Some((name, port)) => old(self)@.unresolved() == Some((name@, port)),
                None => old(self)@.unresolved() is None,
            },
    {
        match self.target_addr.take() {
            Some(TargetAddr::Domain(name, port)) => Some((name, port)),
            other => {
                self.target_addr = other;
                None
            },
        }
    }

    /// Puts the address that a domain name was resolved to into the destination's place.
    pub fn put_addr(&mut self, addr: SocketAddr)
        ensures
            final(self)@ == old(self)@.resolved(addr@),
    {
        self.target_addr = Some(TargetAddr::Ip(addr));
    }
}

/// Wraps a stream and contains what the protocol found out about the client.
pub struct Socks5Socket<T, A: Authentication> {
    inner: T,
    session: Session<A>,
}

/// The value that a [`Socks5Socket`] stands for.
pub struct SocketView<T, A: Authentication> {
    pub inner: T,
    pub session: SessionView<A>,
}

impl<T, A: Authentication> View for Socks5Socket<T, A> {
    type V = SocketView<T, A>;

    closed spec fn view(&self) -> SocketView<T, A> {
        SocketView { inner: self.inner, session: self.session@ }
    }
}

impl<T, A: Authentication> SocketView<T, A> {
    /// A fresh connection, of which nothing is known.
    pub open spec fn fresh(inner: T, config: ConfigView<A>) -> SocketView<T, A> {
        SocketView {
            inner,
            session: SessionView {
                config,
                auth: AuthenticationMethod::NoAuth,
                target_addr: None,
                cmd: None,
                reply_ip: None,
                credentials: None,
            },
        }
    }
}

impl<T, A: Authentication> Socks5Socket<T, A> {
    pub fn new(socket: T, config: Arc<Config<A>>) -> (r: Self)
        ensures
            r@ == SocketView::<T, A>::fresh(socket, (*config)@),
            r@.inner == socket,
            r@.session.config == (*config)@,
            r@.session.auth == AuthenticationMethod::NoAuth,
            r@.session.target_addr is None,
            r@.session.cmd is None,
            r@.session.reply_ip is None,
            r@.session.credentials is None,
    {
        Socks5Socket {
            inner: socket,
            session: Session {
                config,
                auth: AuthenticationMethod::NoAuth,
                target_addr: None,
                cmd: None,
                reply_ip: None,
                credentials: None,
            },
        }
    }

    /// Set the bind IP address in Socks5Reply.
    ///
    /// Only the inner socket owner knows the correct reply bind addr, so leave this field to be
    /// populated. For those strict clients, users can use this function to set the correct IP
    /// address.
    ///
    /// Most popular SOCKS5 clients [1] [2] ignore BND.ADDR and BND.PORT the reply of command
    /// CONNECT, but this field could be useful in some other command, such as UDP ASSOCIATE.
    ///
    /// [1]: https://github.com/chromium/chromium/blob/bd2c7a8b65ec42d806277dd30f138a673dec233a/net/socket/socks5_client_socket.cc#L481
    /// [2]: https://github.com/curl/curl/blob/d15692ebbad5e9cfb871b0f7f51a73e43762cee2/lib/socks.c#L978
    pub fn set_reply_ip(&mut self, addr: IpAddr)
        ensures
            final(self)@ == (SocketView {
                session: SessionView { reply_ip: Some(addr@), ..old(self)@.session },
                ..old(self)@
            }),
    {
        self.session.reply_ip = Some(addr);
    }

    /// Consumes the `Socks5Socket`, returning the wrapped stream.
    pub fn into_inner(self) -> (r: T)
        ensures
            r == self@.inner,
    {
        self.inner
    }

    /// The wrapped stream, to be read from and written to.
    pub fn inner_mut(&mut self) -> (r: &mut T)
        ensures
            *r == old(self)@.inner,
            final(self)@ == (SocketView { inner: *final(r), ..old(self)@ }),
    {
        &mut self.inner
    }

    /// This function is public, it can be call manually on your own-willing
    /// if config flag has been turned off: `Config::set_dns_resolve(false)`.
    ///
    /// Decides whether we have to resolve DNS or not: what it returns has to be looked
    /// up, and the first address found goes to [`Self::dns_resolved`]. Until then there
    /// is no destination. An IP address is left alone.
    pub fn resolve_dns(&mut self) -> (r: Option<(String, u16)>)
        ensures
            final(self)@ == (SocketView { session: old(self)@.session.resolving(), ..old(self)@ }),
            match r {
                Some((name, port)) => old(self)@.session.unresolved() == Some((name@, port)),
                None => old(self)@.session.unresolved() is None,
            },
            match old(self)@.session.target_addr {
                Some(TargetView::Domain(name, port)) => {
                    &&& r matches Some((given, at)) && given@ == name && at == port
                    &&& final(self)@ == (SocketView {
                        session: SessionView { target_addr: None, ..old(self)@.session },
                        ..old(self)@
                    })
                },
                _ => r is None && final(self)@ == old(self)@,
            },
    {
        self.session.take_domain()
    }

    /// The domain name has been resolved to `addr`.
    pub fn dns_resolved(&mut self, addr: SocketAddr)
        ensures
            final(self)@ == (SocketView {
                session: old(self)@.session.resolved(addr@),
                ..old(self)@
            }),
            final(self)@ == (SocketView {
                session: SessionView {
                    target_addr: Some(TargetView::Ip(addr@)),
                    ..old(self)@.session
                },
                ..old(self)@
            }),
    {
        self.session.put_addr(addr);
    }

    pub fn target_addr(&self) -> (r: Option<&TargetAddr>)
        ensures
            match r {
                Some(target) => self@.session.target_addr == Some(target@),
                None => self@.session.target_addr is None,
            },
    {
        self.session.target_addr.as_ref()
    }

    pub fn auth(&self) -> (r: &AuthenticationMethod)
        ensures
            *r == self@.session.auth,
    {
        &self.session.auth
    }

    pub fn cmd(&self) -> (r: &Option<Socks5Command>)
        ensures
            *r == self@.session.cmd,
    {
        &self.session.cmd
    }

    /// Borrow the credentials of the user has authenticated with
    pub fn get_credentials(&self) -> (r: Option<&<<A as Authentication>::Item as Deref>::Target>)
        where <A as Authentication>::Item: Deref
        ensures
            match r {
                Some(target) => {
                    &&& self@.session.credentials matches Some(credentials)
                    &&& call_ensures(<A::Item as Deref>::deref, (&credentials,), target)
                },
                None => self@.session.credentials is None,
            },
    {
        match &self.session.credentials {
            Some(credentials) => Some(credentials.deref()),
            None => None,
        }
    }

    /// Get the credentials of the user has authenticated with
    pub fn take_credentials(&mut self) -> (r: Option<A::Item>)
        ensures
            r == old(self)@.session.credentials,
            final(self)@ == (SocketView {
                session: SessionView { credentials: None, ..old(self)@.session },
                ..old(self)@
            }),
    {
        self.session.credentials.take()
    }

    /// Puts a stream and what is known of the client together.
    pub(crate) fn from_parts(inner: T, session: Session<A>) -> (r: Self)
        ensures
            r@ == (SocketView { inner, session: session@ }),
    {
        Socks5Socket { inner, session }
    }

    /// Takes the stream and what is known of the client apart.
    pub(crate) fn into_parts(self) -> (r: (T, Session<A>))
        ensures
            self@ == (SocketView { inner: r.0, session: r.1@ }),
    {
        (self.inner, self.session)
    }
}

} // verus!
