//! The server that clients connect to.

use vstd::prelude::*;
use std::sync::Arc;

use crate::auth::{Authentication, AuthenticationMethod, DenyAuthentication};
use crate::config::{Config, ConfigView};
use crate::socket::{SocketView, Socks5Socket};

verus! {

/// Calls `Arc::clone`, which makes another pointer to the same value.
#[verifier::external_body]
fn share<C>(value: &Arc<C>) -> (r: Arc<C>)
    ensures
        r == *value,
{
    value.clone()
}

/// Wrapper of a listener
/// Useful if you don't use any existing listener's streams.
pub struct Socks5Server<L, A: Authentication = DenyAuthentication> {
    listener: L,
    config: Arc<Config<A>>,
}

/// The value that a [`Socks5Server`] stands for.
pub struct ServerView<L, A> {
    pub listener: L,
    pub config: ConfigView<A>,
}

impl<L, A: Authentication> View for Socks5Server<L, A> {
    type V = ServerView<L, A>;

    closed spec fn view(&self) -> ServerView<L, A> {
        ServerView { listener: self.listener, config: (*self.config)@ }
    }
}

impl<L, A: Authentication + Default> Socks5Server<L, A> {
    /// The server behind a listener that has been bound to an address.
    pub fn bind(listener: L) -> (r: Self)
        ensures
            r@ == (ServerView { listener, config: ConfigView::<A>::initial() }),
            r@.config == (ConfigView::<A> {
                request_timeout: 10,
                skip_auth: false,
                dns_resolve: true,
                execute_command: true,
                allow_udp: false,
                allow_no_auth: false,
                auth: None,
                nodelay: false,
            }),
    {
        let config = Arc::new(Config::default());
        Socks5Server { listener, config }
    }
}

impl<L, A: Authentication> Socks5Server<L, A> {
    /// Set a custom config
    pub fn with_config<T: Authentication>(self, config: Config<T>) -> (r: Socks5Server<L, T>)
        ensures
            r@ == (ServerView { listener: self@.listener, config: config@ }),
    {
        Socks5Server { listener: self.listener, config: Arc::new(config) }
    }

    /// The listener, to accept connections with.
    pub fn listener(&self) -> (r: &L)
        ensures
            *r == self@.listener,
    {
        &self.listener
    }

    /// Wraps the stream of an accepted connection, under the server's settings.
    pub fn accepted<T>(&self, socket: T) -> (r: Socks5Socket<T, A>)
        ensures
            r@ == SocketView::<T, A>::fresh(socket, self@.config),
            r@.inner == socket,
            r@.session.config == self@.config,
            r@.session.auth == AuthenticationMethod::NoAuth,
            r@.session.target_addr is None,
            r@.session.cmd is None,
            r@.session.reply_ip is None,
            r@.session.credentials is None,
    {
        Socks5Socket::new(socket, share(&self.config))
    }
}

} // verus!
