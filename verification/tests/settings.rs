//! The server's settings, and what it knows of a client.

use socks5_server::addr::IpAddr;
use socks5_server::auth::{
    AcceptAuthentication, AuthSucceeded, Authentication, AuthenticationMethod,
    DenyAuthentication, SimpleUserPassword,
};
use socks5_server::config::Config;
use socks5_server::server::Socks5Server;
use socks5_server::socket::Socks5Socket;
use socks5_server::upgrade::{Action, Event, Progress};
use std::sync::Arc;

fn credentials(username: &str, password: &str) -> Option<(String, String)> {
    Some((username.to_string(), password.to_string()))
}

fn ada() -> SimpleUserPassword {
    SimpleUserPassword { username: "ada".to_string(), password: "pw".to_string() }
}

#[test]
fn default_settings() {
    let config = Config::<DenyAuthentication>::default();
    assert_eq!(config.request_timeout(), 10);
    assert!(!config.skip_auth());
    assert!(config.dns_resolve());
    assert!(config.execute_command());
    assert!(!config.allow_udp());
    assert!(!config.allow_no_auth());
    assert!(config.auth().is_none());
    assert!(!config.nodelay());
}

#[test]
fn settings_are_changed_in_a_chain() {
    let mut config = Config::<DenyAuthentication>::default();
    config
        .set_request_timeout(7)
        .set_dns_resolve(false)
        .set_execute_command(false)
        .set_udp_support(true)
        .set_allow_no_auth(true);
    assert_eq!(config.request_timeout(), 7);
    assert!(!config.dns_resolve());
    assert!(!config.execute_command());
    assert!(config.allow_udp());
    assert!(config.allow_no_auth());
    assert!(!config.skip_auth());
    assert!(!config.nodelay());
}

#[test]
fn authentication_keeps_the_other_settings() {
    let mut config = Config::<DenyAuthentication>::default();
    config.set_request_timeout(7).set_udp_support(true);
    let config = config.with_authentication(ada());
    assert_eq!(config.auth(), Some(&ada()));
    assert_eq!(config.request_timeout(), 7);
    assert!(config.allow_udp());
    assert!(config.dns_resolve());
}

#[test]
fn skipping_the_handshake_drops_the_authentication() {
    let mut config = Config::<DenyAuthentication>::default().with_authentication(ada());
    config.set_skip_auth(false);
    assert!(!config.skip_auth());
    assert!(config.auth().is_none());
    config.set_skip_auth(true);
    assert!(config.skip_auth());
}

#[test]
fn one_user_with_a_password() {
    assert_eq!(
        ada().authenticate(credentials("ada", "pw")),
        Some(AuthSucceeded { username: "ada".to_string() })
    );
    assert_eq!(ada().authenticate(credentials("ada", "p")), None);
    assert_eq!(ada().authenticate(credentials("Ada", "pw")), None);
    assert_eq!(ada().authenticate(None), None);
}

#[test]
fn nobody_and_everybody() {
    assert_eq!(DenyAuthentication {}.authenticate(credentials("ada", "pw")), None);
    assert_eq!(DenyAuthentication {}.authenticate(None), None);
    assert_eq!(AcceptAuthentication {}.authenticate(credentials("ada", "pw")), Some(()));
    assert_eq!(AcceptAuthentication {}.authenticate(None), Some(()));
}

#[test]
fn fresh_socket_knows_nothing() {
    let config = Config::<DenyAuthentication>::default();
    let mut socket = Socks5Socket::new(7u8, Arc::new(config));
    assert_eq!(socket.target_addr(), None);
    assert_eq!(*socket.cmd(), None);
    assert_eq!(*socket.auth(), AuthenticationMethod::NoAuth);
    assert_eq!(socket.take_credentials(), None);
    assert_eq!(socket.resolve_dns(), None);
    *socket.inner_mut() = 8;
    socket.set_reply_ip(IpAddr::V4([127, 0, 0, 1]));
    assert_eq!(socket.into_inner(), 8);
}

#[test]
fn test_bind() {
    let runtime = tokio::runtime::Builder::new_current_thread().enable_all().build().unwrap();
    runtime.block_on(async {
        let listener = tokio::net::TcpListener::bind("127.0.0.1:1080").await.unwrap();
        let _server = Socks5Server::<tokio::net::TcpListener, AcceptAuthentication>::bind(listener);
    });
}

#[test]
fn server_starts_with_the_default_settings() {
    let server = Socks5Server::<&str, AcceptAuthentication>::bind("listener");
    assert_eq!(*server.listener(), "listener");
    match server.accepted("stream").upgrade_to_socks5() {
        Progress::Pending(mut upgrade) => {
            assert_eq!(upgrade.action(), Action::ReadExact(2));
            assert_eq!(upgrade.config().request_timeout(), 10);
            assert_eq!(*upgrade.stream_mut(), "stream");
        }
        _ => panic!("the methods have to be read"),
    }
}

#[test]
fn server_shares_its_settings_with_every_client() {
    let mut config = Config::<DenyAuthentication>::default();
    config.set_skip_auth(true).set_request_timeout(99);
    let server = Socks5Server::<&str, AcceptAuthentication>::bind("listener").with_config(config);
    assert_eq!(*server.listener(), "listener");
    for stream in ["one", "two"] {
        match server.accepted(stream).upgrade_to_socks5() {
            Progress::Pending(mut upgrade) => {
                assert_eq!(upgrade.action(), Action::ReadExact(4));
                assert_eq!(upgrade.config().request_timeout(), 99);
                assert_eq!(*upgrade.stream_mut(), stream);
            }
            _ => panic!("the request has to be read"),
        }
    }
}

/// Lets everybody in, under a name that is kept behind a pointer.
struct Named;

impl Authentication for Named {
    type Item = String;

    fn authenticate(&self, credentials: Option<(String, String)>) -> Option<String> {
        credentials.map(|c| c.0)
    }
}

#[test]
fn credentials_are_borrowed_and_taken() {
    let mut config = Config::<DenyAuthentication>::default().with_authentication(Named);
    config.set_execute_command(false);
    let fresh = Socks5Socket::new((), Arc::new(Config::<Named>::default()));
    assert_eq!(fresh.get_credentials(), None);
    let mut progress = Socks5Socket::new((), Arc::new(config)).upgrade_to_socks5();
    let mut input: Vec<u8> =
        vec![5, 1, 2, 1, 3, 97, 100, 97, 1, 98, 5, 1, 0, 1, 10, 0, 0, 1, 0, 80];
    let mut socket = loop {
        let upgrade = match progress {
            Progress::Pending(upgrade) => upgrade,
            Progress::Finished(socket) => break socket,
            Progress::Failed(e) => panic!("{:?}", e),
        };
        let event = match upgrade.action() {
            Action::ReadExact(count) => Event::Read(input.drain(..count).collect()),
            Action::Authenticate(given) => {
                Event::Answer(upgrade.config().auth().unwrap().authenticate(given))
            }
            _ => Event::Done,
        };
        progress = upgrade.resume(event);
    };
    assert_eq!(socket.get_credentials(), Some("ada"));
    assert_eq!(socket.take_credentials(), Some("ada".to_string()));
    assert_eq!(socket.get_credentials(), None);
}
