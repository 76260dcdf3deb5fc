//! The reply that answers a client's request.

use vstd::prelude::*;

use crate::addr::{address_octets, SocketAddr, SocketAddrView};
use crate::consts;
use crate::message::Message;
use crate::target::{address_message, target_round_trip, AddressError, TargetView};

verus! {

/// The outcome of a request, as the protocol classifies it.
#[derive(Copy, Clone, Debug, PartialEq, Eq, Structural)]
pub enum ReplyError {
    Succeeded,
    GeneralFailure,
    ConnectionNotAllowed,
    NetworkUnreachable,
    HostUnreachable,
    ConnectionRefused,
    ConnectionTimeout,
    TtlExpired,
    CommandNotSupported,
    AddressTypeNotSupported,
}

impl ReplyError {
    /// The outcome's reply code. A connection that timed out is reported as an expired
    /// TTL: the protocol has no code of its own for it.
    pub open spec fn code(self) -> u8 {
        match self {
            ReplyError::Succeeded => consts::SOCKS5_REPLY_SUCCEEDED,
            ReplyError::GeneralFailure => consts::SOCKS5_REPLY_GENERAL_FAILURE,
            ReplyError::ConnectionNotAllowed => consts::SOCKS5_REPLY_CONNECTION_NOT_ALLOWED,
            ReplyError::NetworkUnreachable => consts::SOCKS5_REPLY_NETWORK_UNREACHABLE,
            ReplyError::HostUnreachable => consts::SOCKS5_REPLY_HOST_UNREACHABLE,
            ReplyError::ConnectionRefused => consts::SOCKS5_REPLY_CONNECTION_REFUSED,
            ReplyError::ConnectionTimeout => consts::SOCKS5_REPLY_TTL_EXPIRED,
            ReplyError::TtlExpired => consts::SOCKS5_REPLY_TTL_EXPIRED,
            ReplyError::CommandNotSupported => consts::SOCKS5_REPLY_COMMAND_NOT_SUPPORTED,
            ReplyError::AddressTypeNotSupported => consts::SOCKS5_REPLY_ADDRESS_TYPE_NOT_SUPPORTED,
        }
    }

    /// Transforms the outcome into its reply code.
    pub fn as_u8(self) -> (r: u8)
        ensures
            r == self.code(),
            r == match self {
                ReplyError::Succeeded => 0u8,
                ReplyError::GeneralFailure => 1,
                ReplyError::ConnectionNotAllowed => 2,
                ReplyError::NetworkUnreachable => 3,
                ReplyError::HostUnreachable => 4,
                ReplyError::ConnectionRefused => 5,
                ReplyError::ConnectionTimeout => 6,
                ReplyError::TtlExpired => 6,
                ReplyError::CommandNotSupported => 7,
                ReplyError::AddressTypeNotSupported => 8,
            },
    {
        match self {
            ReplyError::Succeeded => consts::SOCKS5_REPLY_SUCCEEDED,
            ReplyError::GeneralFailure => consts::SOCKS5_REPLY_GENERAL_FAILURE,
            ReplyError::ConnectionNotAllowed => consts::SOCKS5_REPLY_CONNECTION_NOT_ALLOWED,
            ReplyError::NetworkUnreachable => consts::SOCKS5_REPLY_NETWORK_UNREACHABLE,
            ReplyError::HostUnreachable => consts::SOCKS5_REPLY_HOST_UNREACHABLE,
            ReplyError::ConnectionRefused => consts::SOCKS5_REPLY_CONNECTION_REFUSED,
            ReplyError::ConnectionTimeout => consts::SOCKS5_REPLY_TTL_EXPIRED,
            ReplyError::TtlExpired => consts::SOCKS5_REPLY_TTL_EXPIRED,
            ReplyError::CommandNotSupported => consts::SOCKS5_REPLY_COMMAND_NOT_SUPPORTED,
            ReplyError::AddressTypeNotSupported => consts::SOCKS5_REPLY_ADDRESS_TYPE_NOT_SUPPORTED,
        }
    }
}

/// The reply: version, reply code, a reserved octet, and an address.
pub open spec fn reply_bytes(error: ReplyError, addr: SocketAddrView) -> Seq<u8> {
    seq![consts::SOCKS5_VERSION, error.code(), 0x00u8] + addr.bytes()
}

/// A reply is the octet 5, the code of the outcome, a zero octet, the octet 1 for IPv4 or
/// 4 for IPv6, the octets of the address in their order, and the port with its high octet
/// first.
pub proof fn reply_octets(error: ReplyError, addr: SocketAddrView)
    requires
        addr.octets.len() == 4 || addr.octets.len() == 16,
    ensures
        reply_bytes(error, addr).len() == addr.octets.len() + 6,
        reply_bytes(error, addr)[0] == 5,
        reply_bytes(error, addr)[1] == match error {
            ReplyError::Succeeded => 0u8,
            ReplyError::GeneralFailure => 1,
            ReplyError::ConnectionNotAllowed => 2,
            ReplyError::NetworkUnreachable => 3,
            ReplyError::HostUnreachable => 4,
            ReplyError::ConnectionRefused => 5,
            ReplyError::ConnectionTimeout => 6,
            ReplyError::TtlExpired => 6,
            ReplyError::CommandNotSupported => 7,
            ReplyError::AddressTypeNotSupported => 8,
        },
        reply_bytes(error, addr)[2] == 0,
        reply_bytes(error, addr)[3] == (if addr.octets.len() == 4 { 1u8 } else { 4u8 }),
        forall|i: int|
            0 <= i < addr.octets.len() ==> reply_bytes(error, addr)[4 + i]
                == #[trigger] addr.octets[i],
        reply_bytes(error, addr)[addr.octets.len() as int + 4] * 256 + reply_bytes(error, addr)[
            addr.octets.len() as int + 5
        ] == addr.port,
{
    address_octets(addr);
    let n = addr.octets.len() as int;
    assert forall|i: int| 0 <= i < n implies reply_bytes(error, addr)[4 + i]
        == #[trigger] addr.octets[i] by {
        assert(reply_bytes(error, addr)[4 + i] == addr.bytes()[1 + i]);
    }
    assert(reply_bytes(error, addr)[n + 4] == addr.bytes()[n + 1]);
    assert(reply_bytes(error, addr)[n + 5] == addr.bytes()[n + 2]);
}

/// Generates the reply to a request, according to the RFC.
pub fn new_reply(error: &ReplyError, sock_addr: SocketAddr) -> (r: Vec<u8>)
    ensures
        r@ == reply_bytes(*error, sock_addr@),
        match sock_addr {
            SocketAddr::V4 { ip, port } => {
                &&& r@.len() == 10
                &&& r@[3] == 1
                &&& forall|i: int| 0 <= i < 4 ==> r@[4 + i] == #[trigger] ip@[i]
                &&& r@[8] * 256 + r@[9] == port
            },
            SocketAddr::V6 { ip, port, .. } => {
                &&& r@.len() == 22
                &&& r@[3] == 4
                &&& forall|i: int| 0 <= i < 16 ==> r@[4 + i] == #[trigger] ip@[i]
                &&& r@[20] * 256 + r@[21] == port
            },
        },
{
    let mut reply: Vec<u8> = vec![
        consts::SOCKS5_VERSION,
        error.as_u8(),  // the error as its byte code
        0x00,  // reserved
    ];
    assert(reply@ =~= seq![consts::SOCKS5_VERSION, error.code(), 0x00u8]);
    sock_addr.push_bytes(&mut reply);
    proof {
        reply_octets(*error, sock_addr@);
    }
    reply
}

/// A client reads the reply back: the version, the code of the outcome, a zero octet, and
/// then the address and the port, which end the reply.
pub proof fn reply_round_trip(error: ReplyError, addr: SocketAddrView)
    requires
        addr.wf(),
    ensures
        reply_bytes(error, addr)[0] == consts::SOCKS5_VERSION,
        reply_bytes(error, addr)[1] == error.code(),
        reply_bytes(error, addr)[2] == 0,
        address_message(reply_bytes(error, addr)[3], reply_bytes(error, addr).skip(4)) == (Message::<
            TargetView,
            AddressError,
        >::Done {
            value: TargetView::Ip(SocketAddrView::of(addr.octets, addr.port)),
            used: (reply_bytes(error, addr).len() - 4) as nat,
        }),
{
    target_round_trip(TargetView::Ip(addr), Seq::empty());
    assert(reply_bytes(error, addr).skip(4) =~= addr.bytes().skip(1) + Seq::<u8>::empty());
}

} // verus!
