//! The server's side of SOCKS version 5, without the sockets.
//!
//! Nothing in this library reads or writes. [`socket::Socks5Socket::upgrade_to_socks5`]
//! starts the service of a client, and from then on the library and a driver take turns:
//! [`upgrade::Upgrade::action`] says what has to be done, the driver does it, and
//! [`upgrade::Upgrade::resume`] goes on with how it went, until the client has been served
//! or cannot be.
//!
//! What the server understands is in [`protocol`], message by message, and what a client
//! writes in [`wire`]; [`udp`] has the datagrams that are relayed, and [`relay`] takes turns
//! with a driver over a client's datagrams in the same way. [`conduct`] spells out, in
//! octets and settings, what the server does in each step; [`runs`] and [`service`] state what holds of the whole service, from its first step to its last: who is let in,
//! what the client is told, and which requests are carried out.

pub mod addr;
pub mod auth;
pub mod command;
pub mod conduct;
pub mod config;
pub mod consts;
pub mod error;
pub mod message;
pub mod protocol;
pub mod relay;
pub mod reply;
pub mod runs;
pub mod server;
pub mod service;
pub mod socket;
pub mod states;
pub mod target;
pub mod udp;
pub mod upgrade;
mod utf8;
pub mod wire;
