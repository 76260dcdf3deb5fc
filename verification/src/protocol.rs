//! The server's side of the protocol, one message at a time.
//!
//! Nothing here reads or writes: a method takes the octets that have been received, and
//! says what to read or to write next.

use vstd::prelude::*;
use vstd::slice::{slice_subrange, slice_to_vec};
use vstd::utf8::{decode_utf8, valid_utf8};
use std::marker::PhantomData;

use crate::addr::{IpAddr, SocketAddr, SocketAddrView};
use crate::auth::Authentication;
use crate::command::Socks5Command;
use crate::config::{Config, ConfigView};
use crate::consts;
use crate::error::{Context, ErrorView, SocksError};
use crate::message::Message;
use crate::reply::{new_reply, reply_bytes, reply_octets, ReplyError};
use crate::states::{AuthMethodChosen, AuthMethodsRead, Authenticated, CommandRead, Opened};
use crate::target::{address_message, read_address, AddressReading, TargetAddr, TargetView};
use crate::utf8::string_from_utf8;

verus! {

/// The protocol over the stream `inner`, in the state `S` of [`crate::states`].
pub struct Socks5ServerProtocol<T, S> {
    inner: T,
    _state: PhantomData<S>,
}

impl<T, S> View for Socks5ServerProtocol<T, S> {
    type V = T;

    /// The stream.
    closed spec fn view(&self) -> T {
        self.inner
    }
}

impl<T, S> Socks5ServerProtocol<T, S> {
    /// The protocol in any of its states: only the protocol itself may say which.
    pub(crate) fn new(inner: T) -> (r: Self)
        ensures
            r@ == inner,
    {
        Socks5ServerProtocol { inner, _state: PhantomData }
    }

    /// The stream, to be read from and written to.
    pub fn inner_mut(&mut self) -> (r: &mut T)
        ensures
            *r == old(self)@,
            final(self)@ == *final(r),
    {
        &mut self.inner
    }

    /// Gives the stream back.
    pub fn into_inner(self) -> (r: T)
        ensures
            r == self@,
    {
        self.inner
    }
}

impl<T> Socks5ServerProtocol<T, Opened> {
    pub fn start(inner: T) -> (r: Self)
        ensures
            r@ == inner,
    {
        Self::new(inner)
    }
}

/// Where the reading of a message stands. `P` is the protocol before the message, `V`
/// what the message brings.
pub enum Reading<P, V> {
    /// Exactly `count` more octets have to be read. `failure` is the error if that fails.
    More { protocol: P, count: usize, failure: SocksError },
    /// The message is complete.
    Done(V),
    /// The message cannot be understood, or asks for what there is not.
    Failed(SocksError),
}

/// The methods that the client supports: a version, how many methods there are, and the
/// methods.
pub open spec fn methods_message(received: Seq<u8>) -> Message<Seq<u8>, ErrorView> {
    let n = received[1] as nat;
    if received.len() < 2 {
        Message::More {
            count: (2 - received.len()) as nat,
            failure: ErrorView::Other(Context::ReadMethods),
        }
    } else if received[0] != consts::SOCKS5_VERSION {
        Message::Failed(ErrorView::UnsupportedSocksVersion(received[0]))
    } else if received.len() < 2 + n {
        Message::More {
            count: (2 + n - received.len()) as nat,
            failure: ErrorView::Other(Context::GetMethods),
        }
    } else {
        Message::Done { value: received.subrange(2, 2 + n as int), used: 2 + n }
    }
}

impl<T> Socks5ServerProtocol<T, Opened> {
    /// Read the authentication method provided by the client.
    /// A client send a list of methods that he supports, he could send
    ///
    ///   - 0: Non auth
    ///   - 2: Auth with username/password
    ///
    /// Altogether, then the server choose to use of of these,
    /// or deny the handshake (thus the connection).
    ///
    /// # Examples
    /// ```text
    ///                    {SOCKS Version, methods-length}
    ///     eg. (non-auth) {5, 2}
    ///     eg. (auth)     {5, 3}
    /// ```
    ///
    pub fn get_methods(self, received: &[u8]) -> (r: Reading<
        Self,
        (Socks5ServerProtocol<T, AuthMethodsRead>, Vec<u8>),
    >)
        ensures
            match r {
                Reading::More { protocol, count, failure } => {
                    &&& protocol@ == self@
                    &&& methods_message(received@) == (Message::<Seq<u8>, ErrorView>::More {
                        count: count as nat,
                        failure: failure@,
                    })
                },
                Reading::Done((protocol, methods)) => {
                    &&& protocol@ == self@
                    &&& methods_message(received@) matches Message::Done { value, used }
                    &&& value == methods@
                },
                Reading::Failed(e) => methods_message(received@) == Message::<
                    Seq<u8>,
                    ErrorView,
                >::Failed(e@),
            },
    {
        let len: usize = received.len();
        // the first 2 bytes contain the SOCKS version and the methods len()
        if len < 2 {
            return Reading::More {
                protocol: self,
                count: 2 - len,
                failure: SocksError::Other(Context::ReadMethods),
            };
        }
        if received[0] != consts::SOCKS5_VERSION {
            return Reading::Failed(SocksError::UnsupportedSocksVersion(received[0]));
        }
        // {METHODS available from the client}
        // eg. (non-auth) {0, 1}
        // eg. (auth)     {0, 1, 2}

        let n: usize = received[1] as usize;
        if len < 2 + n {
            return Reading::More {
                protocol: self,
                count: 2 + n - len,
                failure: SocksError::Other(Context::GetMethods),
            };
        }
        let methods = slice_to_vec(slice_subrange(received, 2, 2 + n));
        Reading::Done((Socks5ServerProtocol::new(self.inner), methods))
    }
}

/// The methods of a client are the octet 5, their number, and the methods in their order.
/// Whatever is missing is asked for, first of the two octets and then of the methods, and
/// another first octet is another version.
pub proof fn methods_read(received: Seq<u8>)
    ensures
        received.len() < 2 ==> methods_message(received) == (Message::<Seq<u8>, ErrorView>::More {
            count: (2 - received.len()) as nat,
            failure: ErrorView::Other(Context::ReadMethods),
        }),
        received.len() >= 2 && received[0] != 5 ==> methods_message(received) == Message::<
            Seq<u8>,
            ErrorView,
        >::Failed(ErrorView::UnsupportedSocksVersion(received[0])),
        received.len() >= 2 && received[0] == 5 && received.len() < 2 + received[1]
            ==> methods_message(received) == (Message::<Seq<u8>, ErrorView>::More {
            count: (2 + received[1] - received.len()) as nat,
            failure: ErrorView::Other(Context::GetMethods),
        }),
        received.len() >= 2 && received[0] == 5 && received.len() >= 2 + received[1] ==> {
            &&& methods_message(received) matches Message::Done { value, used }
            &&& value.len() == received[1]
            &&& forall|i: int| 0 <= i < value.len() ==> #[trigger] value[i] == received[2 + i]
            &&& used == 2 + received[1]
        },
{
}

/// The method that the server picks among those that the client supports, or `None` if
/// the client is denied the entry.
pub open spec fn chosen_method<A>(config: ConfigView<A>, methods: Seq<u8>) -> Option<u8> {
    if config.auth is Some && methods.contains(consts::SOCKS5_AUTH_METHOD_PASSWORD) {
        Some(consts::SOCKS5_AUTH_METHOD_PASSWORD)
    } else if (config.auth is None || config.allow_no_auth) && methods.contains(
        consts::SOCKS5_AUTH_METHOD_NONE,
    ) {
        Some(consts::SOCKS5_AUTH_METHOD_NONE)
    } else {
        None
    }
}

/// The server never picks a method that the client did not offer.
pub proof fn chosen_is_offered<A>(config: ConfigView<A>, methods: Seq<u8>)
    ensures
        chosen_method(config, methods) matches Some(method) ==> methods.contains(method),
{
}

/// A password is asked for wherever there is an authentication and the client offers one,
/// whether or not credentials may be left out. A client goes without only if it offers
/// that, and there is no authentication, or the client does not offer a password and
/// credentials may be left out. Otherwise it is denied the entry.
pub proof fn password_takes_precedence<A>(config: ConfigView<A>, methods: Seq<u8>)
    ensures
        chosen_method(config, methods) == Some(2u8) <==> config.auth is Some && methods.contains(2),
        chosen_method(config, methods) == Some(0u8) <==> methods.contains(0) && (
        config.auth is None || (config.allow_no_auth && !methods.contains(2))),
        chosen_method(config, methods) matches Some(method) ==> method == 0 || method == 2,
{
}

/// The answer to the methods that the client supports.
pub open spec fn method_reply(method: u8) -> Seq<u8> {
    seq![consts::SOCKS5_VERSION, method]
}

/// What becomes of the methods that the client supports.
pub enum MethodChoice<T> {
    /// `reply` is written; then the protocol goes on with `method`.
    Accepted {
        protocol: Socks5ServerProtocol<T, AuthMethodChosen>,
        method: u8,
        reply: Vec<u8>,
    },
    /// `reply` is written in full; then `error` ends the protocol.
    Refused {
        protocol: Socks5ServerProtocol<T, AuthMethodsRead>,
        reply: Vec<u8>,
        error: SocksError,
    },
}

/// Whether `value` is among `values`.
fn contains(values: &Vec<u8>, value: u8) -> (r: bool)
    ensures
        r == values@.contains(value),
{
    let mut i: usize = 0;
    while i < values.len()
        invariant
            i <= values@.len(),
            forall|j: int| 0 <= j < i ==> values@[j] != value,
        decreases values@.len() - i,
    {
        if values[i] == value {
            return true;
        }
        i += 1;
    }
    false
}

impl<T> Socks5ServerProtocol<T, AuthMethodsRead> {
    /// Decide to whether or not, accept the authentication method.
    /// Don't forget that the methods list sent by the client, contains one or more methods.
    ///
    /// # Request
    ///
    ///  Client send an array of 3 entries: [0, 1, 2]
    /// ```text
    ///                          {SOCKS Version,  Authentication chosen}
    ///     eg. (non-auth)       {5, 0}
    ///     eg. (GSSAPI)         {5, 1}
    ///     eg. (auth)           {5, 2}
    /// ```
    ///
    /// # Response
    /// ```text
    ///     eg. (accept non-auth) {5, 0x00}
    ///     eg. (non-acceptable)  {5, 0xff}
    /// ```
    ///
    pub fn can_accept_method<A: Authentication>(
        self,
        client_methods: Vec<u8>,
        config: &Config<A>,
    ) -> (r: MethodChoice<T>)
        ensures
            match r {
                MethodChoice::Accepted { protocol, method, reply } => {
                    &&& protocol@ == self@
                    &&& chosen_method(config@, client_methods@) == Some(method)
                    &&& reply@ == method_reply(method)
                },
                MethodChoice::Refused { protocol, reply, error } => {
                    &&& protocol@ == self@
                    &&& chosen_method(config@, client_methods@) is None
                    &&& reply@ == method_reply(consts::SOCKS5_AUTH_METHOD_NOT_ACCEPTABLE)
                    &&& error@ == ErrorView::AuthMethodUnacceptable(client_methods@)
                },
            },
            (r matches MethodChoice::Accepted { method, reply, .. } && method == 2 && reply@
                == seq![5u8, 2]) <==> config@.auth is Some && client_methods@.contains(2),
            (r matches MethodChoice::Accepted { method, reply, .. } && method == 0 && reply@
                == seq![5u8, 0]) <==> client_methods@.contains(0) && (config@.auth is None || (
            config@.allow_no_auth && !client_methods@.contains(2))),
            r matches MethodChoice::Accepted { method, .. } ==> method == 0 || method == 2,
            r matches MethodChoice::Refused { reply, error, .. } ==> reply@ == seq![5u8, 0xff]
                && (error matches SocksError::AuthMethodUnacceptable(methods) && methods@
                == client_methods@),
    {
        let needs_auth = config.auth().is_some();
        let method: u8 = if needs_auth && contains(
            &client_methods,
            consts::SOCKS5_AUTH_METHOD_PASSWORD,
        ) {
            // can auth with password
            consts::SOCKS5_AUTH_METHOD_PASSWORD
        } else if (!needs_auth || config.allow_no_auth()) && contains(
            &client_methods,
            consts::SOCKS5_AUTH_METHOD_NONE,
        ) {
            // there is nothing to authenticate against,
            // or we allow no auth, for ip whitelisting
            consts::SOCKS5_AUTH_METHOD_NONE
        } else {
            // the client offers nothing that we accept, so we deny the entry
            let reply: Vec<u8> = vec![
                consts::SOCKS5_VERSION,
                consts::SOCKS5_AUTH_METHOD_NOT_ACCEPTABLE,
            ];
            assert(reply@ =~= method_reply(consts::SOCKS5_AUTH_METHOD_NOT_ACCEPTABLE));
            return MethodChoice::Refused {
                protocol: self,
                reply,
                error: SocksError::AuthMethodUnacceptable(client_methods),
            };
        };
        let reply: Vec<u8> = vec![consts::SOCKS5_VERSION, method];
        assert(reply@ =~= method_reply(method));
        MethodChoice::Accepted {
            protocol: Socks5ServerProtocol::new(self.inner),
            method,
            reply,
        }
    }
}

/// The text of the error when the username is empty.
pub open spec fn username_malformed() -> ErrorView {
    ErrorView::AuthenticationFailed("Username malformed (0 chars)"@)
}

/// The text of the error when the password is empty.
pub open spec fn password_malformed() -> ErrorView {
    ErrorView::AuthenticationFailed("Password malformed (0 chars)"@)
}

/// The client's credentials: a version, which may be any, and then the username and the
/// password, each of them UTF-8, not empty, and after a length octet.
pub open spec fn credentials_message(received: Seq<u8>) -> Message<
    (Seq<char>, Seq<char>),
    ErrorView,
> {
    let n = received[1] as nat;
    let m = received[2 + n as int] as nat;
    let username = received.subrange(2, 2 + n as int);
    let password = received.subrange(3 + n as int, 3 + n as int + m as int);
    if received.len() < 2 {
        Message::More {
            count: (2 - received.len()) as nat,
            failure: ErrorView::Other(Context::ReadUserLen),
        }
    } else if n < 1 {
        Message::Failed(username_malformed())
    } else if received.len() < 2 + n {
        Message::More {
            count: (2 + n - received.len()) as nat,
            failure: ErrorView::Other(Context::GetUsername),
        }
    } else if received.len() < 3 + n {
        Message::More { count: 1, failure: ErrorView::Other(Context::ReadPassLen) }
    } else if m < 1 {
        Message::Failed(password_malformed())
    } else if received.len() < 3 + n + m {
        Message::More {
            count: (3 + n + m - received.len()) as nat,
            failure: ErrorView::Other(Context::GetPassword),
        }
    } else if !valid_utf8(username) {
        Message::Failed(ErrorView::Other(Context::ConvertUsername))
    } else if !valid_utf8(password) {
        Message::Failed(ErrorView::Other(Context::ConvertPassword))
    } else {
        Message::Done {
            value: (decode_utf8(username), decode_utf8(password)),
            used: 3 + n + m,
        }
    }
}

/// The credentials of a client are a version, whichever, the length of the username, the
/// username, the length of the password, and the password. What is missing is asked for, one
/// of these after the other. Neither of them may be empty, and both have to be UTF-8.
pub proof fn credentials_read(received: Seq<u8>)
    ensures
        received.len() < 2 ==> credentials_message(received) == (Message::<
            (Seq<char>, Seq<char>),
            ErrorView,
        >::More {
            count: (2 - received.len()) as nat,
            failure: ErrorView::Other(Context::ReadUserLen),
        }),
        received.len() >= 2 && received[1] == 0 ==> credentials_message(received) == Message::<
            (Seq<char>, Seq<char>),
            ErrorView,
        >::Failed(ErrorView::AuthenticationFailed("Username malformed (0 chars)"@)),
        received.len() >= 2 && received[1] > 0 ==> {
            let n = received[1] as int;
            let m = received[2 + n] as int;
            let username = received.subrange(2, 2 + n);
            let password = received.subrange(3 + n, 3 + n + m);
            &&& received.len() < 2 + n ==> credentials_message(received) == (Message::<
                (Seq<char>, Seq<char>),
                ErrorView,
            >::More {
                count: (2 + n - received.len()) as nat,
                failure: ErrorView::Other(Context::GetUsername),
            })
            &&& received.len() == 2 + n ==> credentials_message(received) == (Message::<
                (Seq<char>, Seq<char>),
                ErrorView,
            >::More { count: 1, failure: ErrorView::Other(Context::ReadPassLen) })
            &&& received.len() > 2 + n && m == 0 ==> credentials_message(received) == Message::<
                (Seq<char>, Seq<char>),
                ErrorView,
            >::Failed(ErrorView::AuthenticationFailed("Password malformed (0 chars)"@))
            &&& 2 + n < received.len() < 3 + n + m && m > 0 ==> credentials_message(received) == (
            Message::<(Seq<char>, Seq<char>), ErrorView>::More {
                count: (3 + n + m - received.len()) as nat,
                failure: ErrorView::Other(Context::GetPassword),
            })
            &&& received.len() >= 3 + n + m && m > 0 ==> {
                &&& !valid_utf8(username) ==> credentials_message(received) == Message::<
                    (Seq<char>, Seq<char>),
                    ErrorView,
                >::Failed(ErrorView::Other(Context::ConvertUsername))
                &&& valid_utf8(username) && !valid_utf8(password) ==> credentials_message(received)
                    == Message::<(Seq<char>, Seq<char>), ErrorView>::Failed(
                    ErrorView::Other(Context::ConvertPassword),
                )
                &&& valid_utf8(username) && valid_utf8(password) ==> credentials_message(received)
                    == (Message::<(Seq<char>, Seq<char>), ErrorView>::Done {
                    value: (decode_utf8(username), decode_utf8(password)),
                    used: (3 + n + m) as nat,
                })
            }
        },
{
}

/// The answer to the client's credentials.
pub open spec fn auth_reply(status: u8) -> Seq<u8> {
    seq![consts::SOCKS5_AUTH_VERSION, status]
}

/// The error when the client is not let in.
pub open spec fn authentication_rejected() -> ErrorView {
    ErrorView::AuthenticationRejected("Authentication, rejected."@)
}

/// A verdict follows from the authentication's answer, and from nothing else: whom it lets
/// in is let in, under what it knows of them, and is told so by the octets 1 and 0 where the
/// password way was chosen; whom it turns down is told so by the octets 1 and 255.
pub proof fn verdict_follows<T, I>(
    verdict: Verdict<T, I>,
    inner: T,
    auth_method: u8,
    answer: Option<I>,
)
    requires
        verdict.follows(inner, auth_method, answer),
    ensures
        match (verdict, answer) {
            (Verdict::Granted { protocol, credentials, reply }, Some(given)) => {
                &&& protocol@ == inner
                &&& credentials == given
                &&& auth_method == 2 ==> (reply matches Some(bytes) && bytes@ == seq![1u8, 0])
                &&& auth_method != 2 ==> reply is None
            },
            (Verdict::Denied { protocol, reply, error }, None) => {
                &&& protocol@ == inner
                &&& reply@ == seq![1u8, 0xff]
                &&& error@ == ErrorView::AuthenticationRejected("Authentication, rejected."@)
            },
            _ => false,
        },
{
}

/// What becomes of a client after the authentication gave its answer.
pub enum Verdict<T, I> {
    /// The client is let in. If there is a `reply`, it is written in full first.
    Granted {
        protocol: Socks5ServerProtocol<T, Authenticated>,
        credentials: I,
        reply: Option<Vec<u8>>,
    },
    /// `reply` is written in full; then `error` ends the protocol.
    Denied {
        protocol: Socks5ServerProtocol<T, AuthMethodChosen>,
        reply: Vec<u8>,
        error: SocksError,
    },
}

impl<T, I> Verdict<T, I> {
    /// The verdict is the one that follows from the authentication's `answer`: only the
    /// password way expects a reply when the client is let in, and both ways get one
    /// when it is not.
    pub open spec fn follows(self, inner: T, auth_method: u8, answer: Option<I>) -> bool {
        match self {
            Verdict::Granted { protocol, credentials, reply } => {
                &&& protocol@ == inner
                &&& answer == Some(credentials)
                &&& reply is Some <==> auth_method == consts::SOCKS5_AUTH_METHOD_PASSWORD
                &&& reply matches Some(bytes) ==> bytes@ == auth_reply(
                    consts::SOCKS5_REPLY_SUCCEEDED,
                )
            },
            Verdict::Denied { protocol, reply, error } => {
                &&& protocol@ == inner
                &&& answer is None
                &&& reply@ == auth_reply(consts::SOCKS5_AUTH_METHOD_NOT_ACCEPTABLE)
                &&& error@ == authentication_rejected()
            },
        }
    }
}

impl<T> Socks5ServerProtocol<T, AuthMethodChosen> {
    /// Reads the credentials that the client sends after the password way was chosen.
    pub fn read_username_password(self, received: &[u8]) -> (r: Reading<
        Self,
        (Self, (String, String)),
    >)
        ensures
            match r {
                Reading::More { protocol, count, failure } => {
                    &&& protocol@ == self@
                    &&& credentials_message(received@) == (Message::<
                        (Seq<char>, Seq<char>),
                        ErrorView,
                    >::More { count: count as nat, failure: failure@ })
                },
                Reading::Done((protocol, (username, password))) => {
                    &&& protocol@ == self@
                    &&& credentials_message(received@) matches Message::Done { value, used }
                    &&& value == (username@, password@)
                },
                Reading::Failed(e) => credentials_message(received@) == Message::<
                    (Seq<char>, Seq<char>),
                    ErrorView,
                >::Failed(e@),
            },
    {
        let len: usize = received.len();
        if len < 2 {
            return Reading::More {
                protocol: self,
                count: 2 - len,
                failure: SocksError::Other(Context::ReadUserLen),
            };
        }
        let n: usize = received[1] as usize;
        if n < 1 {
            return Reading::Failed(
                SocksError::AuthenticationFailed("Username malformed (0 chars)".to_string()),
            );
        }
        if len < 2 + n {
            return Reading::More {
                protocol: self,
                count: 2 + n - len,
                failure: SocksError::Other(Context::GetUsername),
            };
        }
        if len < 3 + n {
            return Reading::More {
                protocol: self,
                count: 1,
                failure: SocksError::Other(Context::ReadPassLen),
            };
        }
        let m: usize = received[2 + n] as usize;
        if m < 1 {
            return Reading::Failed(
                SocksError::AuthenticationFailed("Password malformed (0 chars)".to_string()),
            );
        }
        if len < 3 + n + m {
            return Reading::More {
                protocol: self,
                count: 3 + n + m - len,
                failure: SocksError::Other(Context::GetPassword),
            };
        }
        let username = match string_from_utf8(slice_to_vec(slice_subrange(received, 2, 2 + n))) {
            Some(username) => username,
            None => {
                return Reading::Failed(SocksError::Other(Context::ConvertUsername));
            },
        };
        let password = match string_from_utf8(
            slice_to_vec(slice_subrange(received, 3 + n, 3 + n + m)),
        ) {
            Some(password) => password,
            None => {
                return Reading::Failed(SocksError::Other(Context::ConvertPassword));
            },
        };
        Reading::Done((self, (username, password)))
    }

    /// Draws the consequences of the authentication's `answer`.
    pub fn answered<I>(self, auth_method: u8, answer: Option<I>) -> (r: Verdict<T, I>)
        ensures
            r.follows(self@, auth_method, answer),
            match (r, answer) {
                (Verdict::Granted { credentials, reply, .. }, Some(given)) => {
                    &&& credentials == given
                    &&& auth_method == 2 ==> (reply matches Some(bytes) && bytes@ == seq![1u8, 0])
                    &&& auth_method != 2 ==> reply is None
                },
                (Verdict::Denied { reply, error, .. }, None) => {
                    &&& reply@ == seq![1u8, 0xff]
                    &&& error matches SocksError::AuthenticationRejected(text)
                    &&& text@ == "Authentication, rejected."@
                },
                _ => false,
            },
    {
        match answer {
            Some(credentials) => {
                let reply: Option<Vec<u8>> = if auth_method
                    == consts::SOCKS5_AUTH_METHOD_PASSWORD {
                    // only the password way expect to write a response at this moment
                    let bytes: Vec<u8> = vec![
                        consts::SOCKS5_AUTH_VERSION,
                        consts::SOCKS5_REPLY_SUCCEEDED,
                    ];
                    assert(bytes@ =~= auth_reply(consts::SOCKS5_REPLY_SUCCEEDED));
                    Some(bytes)
                } else {
                    None
                };
                Verdict::Granted {
                    protocol: Socks5ServerProtocol::new(self.inner),
                    credentials,
                    reply,
                }
            },
            None => {
                let reply: Vec<u8> = vec![
                    consts::SOCKS5_AUTH_VERSION,
                    consts::SOCKS5_AUTH_METHOD_NOT_ACCEPTABLE,
                ];
                assert(reply@ =~= auth_reply(consts::SOCKS5_AUTH_METHOD_NOT_ACCEPTABLE));
                Verdict::Denied {
                    protocol: self,
                    reply,
                    error: SocksError::AuthenticationRejected(
                        "Authentication, rejected.".to_string(),
                    ),
                }
            },
        }
    }

    /// Only called if
    ///  - this server has `Authentication` trait implemented.
    ///  - and the client supports authentication via username/password
    ///  - or the client doesn't send authentication, but we let the trait decides if the `allow_no_auth()` set as `true`
    pub fn authenticate<A: Authentication>(
        self,
        auth_method: u8,
        credentials: Option<(String, String)>,
        config: &Config<A>,
    ) -> (r: Result<Verdict<T, A::Item>, SocksError>)
        ensures
            match r {
                Ok(verdict) => {
                    &&& config@.auth matches Some(auth)
                    &&& exists|answer: Option<A::Item>|
                        #![trigger verdict.follows(self@, auth_method, answer)]
                        {
                            &&& call_ensures(A::authenticate, (&auth, credentials), answer)
                            &&& verdict.follows(self@, auth_method, answer)
                        }
                },
                Err(e) => config@.auth is None && e@ == ErrorView::Other(Context::NoAuthModule),
            },
    {
        match config.auth() {
            Some(auth) => {
                let answer = auth.authenticate(credentials);
                let ghost given = answer;
                let verdict = self.answered(auth_method, answer);
                assert(verdict.follows(self@, auth_method, given));
                Ok(verdict)
            },
            None => Err(SocksError::Other(Context::NoAuthModule)),
        }
    }
}

/// A reply that is written, and flushed, before the stream is free for other use.
pub struct Reply<T> {
    pub inner: T,
    pub bytes: Vec<u8>,
}

/// The address in a reply that reports an error: no host and no port.
pub open spec fn unspecified_addr() -> SocketAddrView {
    SocketAddrView::of(seq![0u8, 0, 0, 0], 0)
}

impl<T> Socks5ServerProtocol<T, CommandRead> {
    /// Reply success to the client according to the RFC.
    /// This consumes the wrapper as after this message actual proxying should begin.
    pub fn reply_success(self, sock_addr: SocketAddr) -> (r: Reply<T>)
        ensures
            r.inner == self@,
            r.bytes@ == reply_bytes(ReplyError::Succeeded, sock_addr@),
            r.bytes@[0] == 5 && r.bytes@[1] == 0 && r.bytes@[2] == 0,
            match sock_addr {
                SocketAddr::V4 { ip, port } => {
                    &&& r.bytes@.len() == 10
                    &&& r.bytes@[3] == 1
                    &&& forall|i: int| 0 <= i < 4 ==> r.bytes@[4 + i] == #[trigger] ip@[i]
                    &&& r.bytes@[8] * 256 + r.bytes@[9] == port
                },
                SocketAddr::V6 { ip, port, .. } => {
                    &&& r.bytes@.len() == 22
                    &&& r.bytes@[3] == 4
                    &&& forall|i: int| 0 <= i < 16 ==> r.bytes@[4 + i] == #[trigger] ip@[i]
                    &&& r.bytes@[20] * 256 + r.bytes@[21] == port
                },
            },
    {
        let bytes = new_reply(&ReplyError::Succeeded, sock_addr);
        proof {
            reply_octets(ReplyError::Succeeded, sock_addr@);
        }
        Reply { inner: self.inner, bytes }
    }

    /// Reply error to the client with the reply code according to the RFC.
    pub fn reply_error(self, error: &ReplyError) -> (r: Reply<T>)
        ensures
            r.inner == self@,
            r.bytes@ == reply_bytes(*error, unspecified_addr()),
            r.bytes@.len() == 10,
            r.bytes@[0] == 5,
            r.bytes@[3] == 1,
            r.bytes@[2] == 0 && (forall|i: int| 4 <= i < 10 ==> r.bytes@[i] == 0),
    {
        let unspecified: [u8; 4] = [0, 0, 0, 0];
        assert(unspecified@ =~= seq![0u8, 0, 0, 0]);
        let bytes = new_reply(error, SocketAddr::new(IpAddr::V4(unspecified), 0));
        assert forall|i: int| 4 <= i < 10 implies bytes@[i] == 0 by {
            if i < 8 {
                assert(unspecified@[i - 4] == 0);
            }
        }
        proof {
            reply_octets(*error, unspecified_addr());
        }
        Reply { inner: self.inner, bytes }
    }
}

/// The client's request: a version, a command, a reserved octet, which may be any, and
/// the destination. Whatever is wrong with the destination, the error is the same.
pub open spec fn command_message(received: Seq<u8>) -> Message<
    (Socks5Command, TargetView),
    ErrorView,
> {
    let address_error = ErrorView::ReplyError(ReplyError::AddressTypeNotSupported);
    if received.len() < 4 {
        Message::More {
            count: (4 - received.len()) as nat,
            failure: ErrorView::Other(Context::MalformedRequest),
        }
    } else if received[0] != consts::SOCKS5_VERSION {
        Message::Failed(ErrorView::UnsupportedSocksVersion(received[0]))
    } else {
        match Socks5Command::of_code(received[1]) {
            None => Message::Failed(ErrorView::ReplyError(ReplyError::CommandNotSupported)),
            Some(command) => match address_message(received[3], received.skip(4)) {
                Message::More { count, failure } => Message::More {
                    count,
                    failure: address_error,
                },
                Message::Failed(e) => Message::Failed(address_error),
                Message::Done { value, used } => Message::Done {
                    value: (command, value),
                    used: 4 + used,
                },
            },
        }
    }
}

/// A request is the octet 5, the octet of a command, a reserved octet, whichever, and a
/// destination, which is read as [`crate::target::address_read`] says. What is missing is
/// asked for. Another first octet is another version, and an octet that is none of 1, 2 and
/// 3 is no command; whatever is wrong with the destination, the error is the same.
pub proof fn command_read(received: Seq<u8>)
    ensures
        received.len() < 4 ==> command_message(received) == (Message::<
            (Socks5Command, TargetView),
            ErrorView,
        >::More {
            count: (4 - received.len()) as nat,
            failure: ErrorView::Other(Context::MalformedRequest),
        }),
        received.len() >= 4 && received[0] != 5 ==> command_message(received) == Message::<
            (Socks5Command, TargetView),
            ErrorView,
        >::Failed(ErrorView::UnsupportedSocksVersion(received[0])),
        received.len() >= 4 && received[0] == 5 && (received[1] < 1 || received[1] > 3)
            ==> command_message(received) == Message::<(Socks5Command, TargetView), ErrorView>::Failed(
            ErrorView::ReplyError(ReplyError::CommandNotSupported),
        ),
        received.len() >= 4 && received[0] == 5 && 1 <= received[1] <= 3 ==> match address_message(
            received[3],
            received.skip(4),
        ) {
            Message::More { count, .. } => command_message(received) == (Message::<
                (Socks5Command, TargetView),
                ErrorView,
            >::More {
                count,
                failure: ErrorView::ReplyError(ReplyError::AddressTypeNotSupported),
            }),
            Message::Failed(_) => command_message(received) == Message::<
                (Socks5Command, TargetView),
                ErrorView,
            >::Failed(ErrorView::ReplyError(ReplyError::AddressTypeNotSupported)),
            Message::Done { value, used } => command_message(received) == (Message::<
                (Socks5Command, TargetView),
                ErrorView,
            >::Done {
                value: (
                    if received[1] == 1 {
                        Socks5Command::TCPConnect
                    } else if received[1] == 2 {
                        Socks5Command::TCPBind
                    } else {
                        Socks5Command::UDPAssociate
                    },
                    value,
                ),
                used: 4 + used,
            }),
        },
{
}

impl<T> Socks5ServerProtocol<T, Authenticated> {
    /// Reads the client's request.
    ///
    /// # Request
    /// ```text
    ///          +----+-----+-------+------+----------+----------+
    ///          |VER | CMD |  RSV  | ATYP | DST.ADDR | DST.PORT |
    ///          +----+-----+-------+------+----------+----------+
    ///          | 1  |  1  |   1   |  1   | Variable |    2     |
    ///          +----+-----+-------+------+----------+----------+
    /// ```
    ///
    pub fn read_command(self, received: &[u8]) -> (r: Reading<
        Self,
        (Socks5ServerProtocol<T, CommandRead>, Socks5Command, TargetAddr),
    >)
        ensures
            match r {
                Reading::More { protocol, count, failure } => {
                    &&& protocol@ == self@
                    &&& command_message(received@) == (Message::<
                        (Socks5Command, TargetView),
                        ErrorView,
                    >::More { count: count as nat, failure: failure@ })
                },
                Reading::Done((protocol, command, target)) => {
                    &&& protocol@ == self@
                    &&& command_message(received@) matches Message::Done { value, used }
                    &&& value == (command, target@)
                },
                Reading::Failed(e) => command_message(received@) == Message::<
                    (Socks5Command, TargetView),
                    ErrorView,
                >::Failed(e@),
            },
    {
        let len: usize = received.len();
        if len < 4 {
            return Reading::More {
                protocol: self,
                count: 4 - len,
                failure: SocksError::Other(Context::MalformedRequest),
            };
        }
        if received[0] != consts::SOCKS5_VERSION {
            return Reading::Failed(SocksError::UnsupportedSocksVersion(received[0]));
        }
        let command = match Socks5Command::from_u8(received[1]) {
            Some(command) => command,
            None => {
                return Reading::Failed(SocksError::ReplyError(ReplyError::CommandNotSupported));
            },
        };
        // Guess address type
        match read_address(received[3], slice_subrange(received, 4, len)) {
            AddressReading::More(count) => Reading::More {
                protocol: self,
                count,
                failure: SocksError::ReplyError(ReplyError::AddressTypeNotSupported),
            },
            AddressReading::Failed(_) => Reading::Failed(
                SocksError::ReplyError(ReplyError::AddressTypeNotSupported),
            ),
            AddressReading::Done(target, _) => Reading::Done(
                (Socks5ServerProtocol::new(self.inner), command, target),
            ),
        }
    }
}

} // verus!
