//! Who may use the server.

use vstd::prelude::*;

verus! {

/// Use this trait to handle a custom authentication on your end.
pub trait Authentication: Send + Sync {
    /// What is known of a user that was let in.
    type Item;

    /// Lets the user in, with `Some`, or denies the entry. There are no credentials if
    /// the client did not offer to send any.
    fn authenticate(&self, credentials: Option<(String, String)>) -> Option<Self::Item>;
}

/// Basic user/pass auth method provided.
#[derive(Clone, Debug, PartialEq, Eq)]
pub struct SimpleUserPassword {
    pub username: String,
    pub password: String,
}

/// The struct returned when the user has successfully authenticated
#[derive(Clone, Debug, PartialEq, Eq)]
pub struct AuthSucceeded {
    pub username: String,
}

/// This is an example to auth via simple credentials.
/// If the auth succeed, we return the username authenticated with, for further uses.
impl Authentication for SimpleUserPassword {
    type Item = AuthSucceeded;

    fn authenticate(&self, credentials: Option<(String, String)>) -> (r: Option<Self::Item>)
        ensures
            r is Some <==> (credentials matches Some((username, password)) && username@
                == self.username@ && password@ == self.password@),
            r matches Some(user) ==> user.username@ == self.username@,
    {
        if let Some((username, password)) = credentials {
            // Client has supplied credentials
            if username == self.username && password == self.password {
                // Some() will allow the authentication and the credentials
                // will be forwarded to the socket
                Some(AuthSucceeded { username })
            } else {
                // Credentials incorrect, we deny the auth
                None
            }
        } else {
            // The client hasn't supplied any credentials, which only happens
            // when `Config::set_allow_no_auth()` is set as `true`
            None
        }
    }
}

/// This will simply return Option::None, which denies the authentication
#[derive(Copy, Clone, Debug, Default, PartialEq, Eq)]
pub struct DenyAuthentication {}

impl Authentication for DenyAuthentication {
    type Item = ();

    fn authenticate(&self, _credentials: Option<(String, String)>) -> (r: Option<Self::Item>)
        ensures
            r is None,
    {
        None
    }
}

/// While this one will always allow the user in.
#[derive(Copy, Clone, Debug, Default, PartialEq, Eq)]
pub struct AcceptAuthentication {}

impl Authentication for AcceptAuthentication {
    type Item = ();

    fn authenticate(&self, _credentials: Option<(String, String)>) -> (r: Option<Self::Item>)
        ensures
            r == Some(()),
    {
        Some(())
    }
}

/// The authentication that a client went through.
#[derive(Clone, Debug, PartialEq, Eq)]
pub enum AuthenticationMethod {
    NoAuth,
    Password { username: String, password: String },
}

} // verus!
