//! The commands of a request.

use vstd::prelude::*;

use crate::consts;

verus! {

/// What a client asks for.
#[derive(Copy, Clone, Debug, PartialEq, Eq, Structural)]
pub enum Socks5Command {
    TCPConnect,
    TCPBind,
    UDPAssociate,
}

impl Socks5Command {
    /// The octet that stands for the command.
    pub open spec fn code(self) -> u8 {
        match self {
            Socks5Command::TCPConnect => consts::SOCKS5_CMD_TCP_CONNECT,
            Socks5Command::TCPBind => consts::SOCKS5_CMD_TCP_BIND,
            Socks5Command::UDPAssociate => consts::SOCKS5_CMD_UDP_ASSOCIATE,
        }
    }

    /// The command that an octet stands for, if there is one.
    pub open spec fn of_code(code: u8) -> Option<Socks5Command> {
        if code == consts::SOCKS5_CMD_TCP_CONNECT {
            Some(Socks5Command::TCPConnect)
        } else if code == consts::SOCKS5_CMD_TCP_BIND {
            Some(Socks5Command::TCPBind)
        } else if code == consts::SOCKS5_CMD_UDP_ASSOCIATE {
            Some(Socks5Command::UDPAssociate)
        } else {
            None
        }
    }

    /// The command that an octet stands for, if there is one.
    pub fn from_u8(code: u8) -> (r: Option<Socks5Command>)
        ensures
            r == Socks5Command::of_code(code),
            r == Some(Socks5Command::TCPConnect) <==> code == 1,
            r == Some(Socks5Command::TCPBind) <==> code == 2,
            r == Some(Socks5Command::UDPAssociate) <==> code == 3,
            r is None <==> code < 1 || code > 3,
    {
        if code == consts::SOCKS5_CMD_TCP_CONNECT {
            Some(Socks5Command::TCPConnect)
        } else if code == consts::SOCKS5_CMD_TCP_BIND {
            Some(Socks5Command::TCPBind)
        } else if code == consts::SOCKS5_CMD_UDP_ASSOCIATE {
            Some(Socks5Command::UDPAssociate)
        } else {
            None
        }
    }
}

/// Every octet stands for one command at most, and every command has an octet.
pub proof fn command_round_trip(code: u8, command: Socks5Command)
    ensures
        Socks5Command::of_code(code) == Some(command) <==> command.code() == code,
        command.code() == match command {
            Socks5Command::TCPConnect => 1u8,
            Socks5Command::TCPBind => 2,
            Socks5Command::UDPAssociate => 3,
        },
        Socks5Command::of_code(code) is None <==> code < 1 || code > 3,
{
}

} // verus!
