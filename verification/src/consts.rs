//! The byte values that SOCKS version 5 assigns (RFC 1928, and RFC 1929 for the
//! username/password method).

use vstd::prelude::*;

verus! {

/// The protocol version that every SOCKS5 message starts with.
pub const SOCKS5_VERSION: u8 = 0x05;

/// The version of the username/password sub-negotiation.
pub const SOCKS5_AUTH_VERSION: u8 = 0x01;

/// No authentication.
pub const SOCKS5_AUTH_METHOD_NONE: u8 = 0x00;

/// Authentication by username and password.
pub const SOCKS5_AUTH_METHOD_PASSWORD: u8 = 0x02;

/// None of the methods that the client offered is acceptable.
pub const SOCKS5_AUTH_METHOD_NOT_ACCEPTABLE: u8 = 0xff;

/// Connect to a TCP peer.
pub const SOCKS5_CMD_TCP_CONNECT: u8 = 0x01;

/// Wait for a TCP peer.
pub const SOCKS5_CMD_TCP_BIND: u8 = 0x02;

/// Relay UDP datagrams.
pub const SOCKS5_CMD_UDP_ASSOCIATE: u8 = 0x03;

/// The address is four octets of IPv4.
pub const SOCKS5_ADDR_TYPE_IPV4: u8 = 0x01;

/// The address is a domain name after a length octet.
pub const SOCKS5_ADDR_TYPE_DOMAIN_NAME: u8 = 0x03;

/// The address is sixteen octets of IPv6.
pub const SOCKS5_ADDR_TYPE_IPV6: u8 = 0x04;

pub const SOCKS5_REPLY_SUCCEEDED: u8 = 0x00;

pub const SOCKS5_REPLY_GENERAL_FAILURE: u8 = 0x01;

pub const SOCKS5_REPLY_CONNECTION_NOT_ALLOWED: u8 = 0x02;

pub const SOCKS5_REPLY_NETWORK_UNREACHABLE: u8 = 0x03;

pub const SOCKS5_REPLY_HOST_UNREACHABLE: u8 = 0x04;

pub const SOCKS5_REPLY_CONNECTION_REFUSED: u8 = 0x05;

pub const SOCKS5_REPLY_TTL_EXPIRED: u8 = 0x06;

pub const SOCKS5_REPLY_COMMAND_NOT_SUPPORTED: u8 = 0x07;

pub const SOCKS5_REPLY_ADDRESS_TYPE_NOT_SUPPORTED: u8 = 0x08;

} // verus!
