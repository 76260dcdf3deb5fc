//! How the server is set up.

use vstd::prelude::*;
use std::sync::Arc;

use crate::auth::{Authentication, DenyAuthentication};

verus! {

/// How the server is set up.
#[derive(Clone)]
pub struct Config<A: Authentication = DenyAuthentication> {
    /// Timeout of the command request
    request_timeout: u64,
    /// Avoid useless roundtrips if we don't need the Authentication layer
    skip_auth: bool,
    /// Enable dns-resolving
    dns_resolve: bool,
    /// Enable command execution
    execute_command: bool,
    /// Enable UDP support
    allow_udp: bool,
    /// For some complex scenarios, we may want to either accept Username/Password configuration
    /// or IP Whitelisting, in case the client send only 1-2 auth methods (no auth) rather than 3 (with auth)
    allow_no_auth: bool,
    /// Contains the authentication trait to use the user against with
    auth: Option<Arc<A>>,
    /// Disables Nagle's algorithm for TCP
    nodelay: bool,
}

/// The value that a [`Config`] stands for.
pub struct ConfigView<A> {
    pub request_timeout: u64,
    pub skip_auth: bool,
    pub dns_resolve: bool,
    pub execute_command: bool,
    pub allow_udp: bool,
    pub allow_no_auth: bool,
    pub auth: Option<A>,
    pub nodelay: bool,
}

impl<A> ConfigView<A> {
    /// The settings that a server starts with.
    pub open spec fn initial() -> ConfigView<A> {
        ConfigView {
            request_timeout: 10,
            skip_auth: false,
            dns_resolve: true,
            execute_command: true,
            allow_udp: false,
            allow_no_auth: false,
            auth: None,
            nodelay: false,
        }
    }
}

impl<A: Authentication> View for Config<A> {
    type V = ConfigView<A>;

    closed spec fn view(&self) -> ConfigView<A> {
        ConfigView {
            request_timeout: self.request_timeout,
            skip_auth: self.skip_auth,
            dns_resolve: self.dns_resolve,
            execute_command: self.execute_command,
            allow_udp: self.allow_udp,
            allow_no_auth: self.allow_no_auth,
            auth: match self.auth {
                Some(auth) => Some(*auth),
                None => None,
            },
            nodelay: self.nodelay,
        }
    }
}

impl<A: Authentication> Default for Config<A> {
    fn default() -> (r: Self)
        ensures
            r@ == ConfigView::<A>::initial(),
            r@.request_timeout == 10,
            !r@.skip_auth,
            r@.dns_resolve,
            r@.execute_command,
            !r@.allow_udp,
            !r@.allow_no_auth,
            r@.auth is None,
            !r@.nodelay,
    {
        Config {
            request_timeout: 10,
            skip_auth: false,
            dns_resolve: true,
            execute_command: true,
            allow_udp: false,
            allow_no_auth: false,
            auth: None,
            nodelay: false,
        }
    }
}

impl<A: Authentication> Config<A> {
    /// How much time it should wait until the request timeout.
    pub fn set_request_timeout(&mut self, n: u64) -> (r: &mut Self)
        ensures
            r@ == (ConfigView { request_timeout: n, ..old(self)@ }),
            *final(self) == *final(r),
    {
        self.request_timeout = n;
        self
    }

    /// Skip the entire auth/handshake part, which means the server will directly wait for
    /// the command request.
    pub fn set_skip_auth(&mut self, value: bool) -> (r: &mut Self)
        ensures
            r@ == (ConfigView { skip_auth: value, auth: None, ..old(self)@ }),
            *final(self) == *final(r),
    {
        self.skip_auth = value;
        self.auth = None;
        self
    }

    /// Enable authentication
    pub fn with_authentication<T: Authentication + 'static>(self, authentication: T) -> (r: Config<
        T,
    >)
        ensures
            r@ == (ConfigView {
                request_timeout: self@.request_timeout,
                skip_auth: self@.skip_auth,
                dns_resolve: self@.dns_resolve,
                execute_command: self@.execute_command,
                allow_udp: self@.allow_udp,
                allow_no_auth: self@.allow_no_auth,
                auth: Some(authentication),
                nodelay: self@.nodelay,
            }),
    {
        Config {
            request_timeout: self.request_timeout,
            skip_auth: self.skip_auth,
            dns_resolve: self.dns_resolve,
            execute_command: self.execute_command,
            allow_udp: self.allow_udp,
            allow_no_auth: self.allow_no_auth,
            auth: Some(Arc::new(authentication)),
            nodelay: self.nodelay,
        }
    }

    /// For some complex scenarios, we may want to either accept Username/Password configuration
    /// or IP Whitelisting, in case the client send only 2 auth methods rather than 3 (with auth)
    pub fn set_allow_no_auth(&mut self, value: bool) -> (r: &mut Self)
        ensures
            r@ == (ConfigView { allow_no_auth: value, ..old(self)@ }),
            *final(self) == *final(r),
    {
        self.allow_no_auth = value;
        self
    }

    /// Set whether or not to execute commands
    pub fn set_execute_command(&mut self, value: bool) -> (r: &mut Self)
        ensures
            r@ == (ConfigView { execute_command: value, ..old(self)@ }),
            *final(self) == *final(r),
    {
        self.execute_command = value;
        self
    }

    /// Will the server perform dns resolve
    pub fn set_dns_resolve(&mut self, value: bool) -> (r: &mut Self)
        ensures
            r@ == (ConfigView { dns_resolve: value, ..old(self)@ }),
            *final(self) == *final(r),
    {
        self.dns_resolve = value;
        self
    }

    /// Set whether or not to allow udp traffic
    pub fn set_udp_support(&mut self, value: bool) -> (r: &mut Self)
        ensures
            r@ == (ConfigView { allow_udp: value, ..old(self)@ }),
            *final(self) == *final(r),
    {
        self.allow_udp = value;
        self
    }

    /// Timeout of the command request, in seconds.
    pub fn request_timeout(&self) -> (r: u64)
        ensures
            r == self@.request_timeout,
    {
        self.request_timeout
    }

    /// Whether the handshake is left out.
    pub fn skip_auth(&self) -> (r: bool)
        ensures
            r == self@.skip_auth,
    {
        self.skip_auth
    }

    /// Whether domain names are resolved.
    pub fn dns_resolve(&self) -> (r: bool)
        ensures
            r == self@.dns_resolve,
    {
        self.dns_resolve
    }

    /// Whether commands are executed.
    pub fn execute_command(&self) -> (r: bool)
        ensures
            r == self@.execute_command,
    {
        self.execute_command
    }

    /// Whether UDP is supported.
    pub fn allow_udp(&self) -> (r: bool)
        ensures
            r == self@.allow_udp,
    {
        self.allow_udp
    }

    /// Whether a client may leave its credentials out.
    pub fn allow_no_auth(&self) -> (r: bool)
        ensures
            r == self@.allow_no_auth,
    {
        self.allow_no_auth
    }

    /// The authentication that decides who is let in, if there is one.
    pub fn auth(&self) -> (r: Option<&A>)
        ensures
            match r {
                Some(auth) => self@.auth == Some(*auth),
                None => self@.auth is None,
            },
    {
        match &self.auth {
            Some(auth) => Some(&**auth),
            None => None,
        }
    }

    /// Whether Nagle's algorithm is disabled.
    pub fn nodelay(&self) -> (r: bool)
        ensures
            r == self@.nodelay,
    {
        self.nodelay
    }
}

} // verus!
