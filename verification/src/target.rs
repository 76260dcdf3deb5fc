//! The destination that a client names.

use vstd::prelude::*;
use vstd::slice::{slice_subrange, slice_to_vec};
use vstd::utf8::{decode_utf8, encode_utf8, valid_utf8};

use crate::addr::{
    address_octets, port_bytes, port_bytes_round_trip, port_in_network_order, port_round_trip,
    port_value, push_all, push_port, SocketAddr, SocketAddrView,
};
use crate::consts;
use crate::error::{ErrorView, SocksError};
use crate::message::{read_exactly, Message};
use crate::utf8::string_from_utf8;

verus! {

/// A destination: an IP address, or a domain name that has still to be resolved, each
/// with a port.
#[derive(Clone, Debug, PartialEq, Eq)]
pub enum TargetAddr {
    Ip(SocketAddr),
    Domain(String, u16),
}

/// The value that a [`TargetAddr`] stands for.
#[verifier::ext_equal]
pub enum TargetView {
    Ip(SocketAddrView),
    Domain(Seq<char>, u16),
}

impl View for TargetAddr {
    type V = TargetView;

    open spec fn view(&self) -> TargetView {
        match *self {
            TargetAddr::Ip(addr) => TargetView::Ip(addr@),
            TargetAddr::Domain(name, port) => TargetView::Domain(name@, port),
        }
    }
}

impl TargetView {
    /// The destination fits into a message: the length of a domain name fits into an
    /// octet.
    pub open spec fn encodable(self) -> bool {
        match self {
            TargetView::Ip(addr) => addr.wf(),
            TargetView::Domain(name, _) => encode_utf8(name).len() <= 255,
        }
    }

    /// The destination as a message carries it.
    pub open spec fn bytes(self) -> Seq<u8> {
        match self {
            TargetView::Ip(addr) => addr.bytes(),
            TargetView::Domain(name, port) => seq![
                consts::SOCKS5_ADDR_TYPE_DOMAIN_NAME,
                encode_utf8(name).len() as u8,
            ] + encode_utf8(name) + port_bytes(port),
        }
    }

    /// What is left of the destination on the wire, which has no room for the flow
    /// information and the scope of an IPv6 address.
    pub open spec fn on_wire(self) -> TargetView {
        match self {
            TargetView::Ip(addr) => TargetView::Ip(SocketAddrView::of(addr.octets, addr.port)),
            TargetView::Domain(..) => self,
        }
    }

    /// The address that a connection to the destination goes to.
    pub open spec fn socket_addr(self) -> Result<SocketAddrView, ErrorView> {
        match self {
            TargetView::Ip(addr) => Ok(addr),
            TargetView::Domain(..) => Err(ErrorView::Io),
        }
    }
}

impl TargetAddr {
    /// The destination as a message carries it. A domain name of more than 255 octets
    /// cannot be written down.
    pub fn to_be_bytes(&self) -> (r: Result<Vec<u8>, SocksError>)
        ensures
            match r {
                Ok(bytes) => {
                    &&& self@.encodable()
                    &&& bytes@ == self@.bytes()
                    &&& match *self {
                        TargetAddr::Ip(SocketAddr::V4 { ip, port }) => {
                            &&& bytes@.len() == 7
                            &&& bytes@[0] == 1
                            &&& forall|i: int|
                                0 <= i < 4 ==> bytes@[1 + i] == #[trigger] ip@[i]
                            &&& bytes@[5] * 256 + bytes@[6] == port
                        },
                        TargetAddr::Ip(SocketAddr::V6 { ip, port, .. }) => {
                            &&& bytes@.len() == 19
                            &&& bytes@[0] == 4
                            &&& forall|i: int|
                                0 <= i < 16 ==> bytes@[1 + i] == #[trigger] ip@[i]
                            &&& bytes@[17] * 256 + bytes@[18] == port
                        },
                        TargetAddr::Domain(name, port) => {
                            let n = encode_utf8(name@).len() as int;
                            &&& bytes@.len() == n + 4
                            &&& bytes@[0] == 3
                            &&& bytes@[1] == n
                            &&& bytes@.subrange(2, 2 + n) == encode_utf8(name@)
                            &&& bytes@[n + 2] * 256 + bytes@[n + 3] == port
                        },
                    }
                },
                Err(e) => {
                    &&& !self@.encodable()
                    &&& e matches SocksError::ExceededMaxDomainLen(n)
                    &&& self@ matches TargetView::Domain(name, _)
                    &&& n == encode_utf8(name).len()
                    &&& n > 255
                },
            },
    {
        let mut out: Vec<u8> = Vec::new();
        match self {
            TargetAddr::Ip(addr) => {
                addr.push_bytes(&mut out);
                assert(out@ =~= addr@.bytes());
            },
            TargetAddr::Domain(name, port) => {
                let text: &[u8] = name.as_str().as_bytes();
                if text.len() > 255 {
                    return Err(SocksError::ExceededMaxDomainLen(text.len()));
                }
                out.push(consts::SOCKS5_ADDR_TYPE_DOMAIN_NAME);
                out.push(text.len() as u8);
                push_all(&mut out, text);
                push_port(&mut out, *port);
                assert(out@ =~= self@.bytes());
            },
        }
        proof {
            target_octets(self@);
        }
        Ok(out)
    }

    /// The address that a connection to the destination goes to. A domain name has to be
    /// resolved first.
    pub fn to_socket_addr(&self) -> (r: Result<SocketAddr, SocksError>)
        ensures
            match r {
                Ok(addr) => self@.socket_addr() == Ok::<SocketAddrView, ErrorView>(addr@),
                Err(e) => self@.socket_addr() == Err::<SocketAddrView, ErrorView>(e@),
            },
            match *self {
                TargetAddr::Ip(addr) => r == Ok::<SocketAddr, SocksError>(addr),
                TargetAddr::Domain(..) => r == Err::<SocketAddr, SocksError>(SocksError::Io),
            },
    {
        match self {
            TargetAddr::Ip(addr) => Ok(*addr),
            TargetAddr::Domain(..) => Err(SocksError::Io),
        }
    }
}

/// Why octets are not a destination.
#[derive(Copy, Clone, Debug, PartialEq, Eq, Structural)]
pub enum AddressError {
    /// There is no such address type.
    Type(u8),
    /// The octets could not be read.
    Truncated,
    /// The domain name is not UTF-8.
    Text,
}

/// An IP address of `n` octets, then a port.
pub open spec fn ip_message(n: nat, rest: Seq<u8>) -> Message<TargetView, AddressError> {
    if rest.len() < n {
        Message::More { count: (n - rest.len()) as nat, failure: AddressError::Truncated }
    } else if rest.len() < n + 2 {
        Message::More { count: (n + 2 - rest.len()) as nat, failure: AddressError::Truncated }
    } else {
        Message::Done {
            value: TargetView::Ip(
                SocketAddrView::of(
                    rest.take(n as int),
                    port_value(rest[n as int], rest[n as int + 1]),
                ),
            ),
            used: n + 2,
        }
    }
}

/// A length octet, a domain name of that many octets of UTF-8, then a port.
pub open spec fn domain_message(rest: Seq<u8>) -> Message<TargetView, AddressError> {
    let n = rest[0] as nat;
    if rest.len() < 1 {
        Message::More { count: 1, failure: AddressError::Truncated }
    } else if rest.len() < 1 + n {
        Message::More { count: (1 + n - rest.len()) as nat, failure: AddressError::Truncated }
    } else if !valid_utf8(rest.subrange(1, 1 + n as int)) {
        Message::Failed(AddressError::Text)
    } else if rest.len() < 3 + n {
        Message::More { count: (3 + n - rest.len()) as nat, failure: AddressError::Truncated }
    } else {
        Message::Done {
            value: TargetView::Domain(
                decode_utf8(rest.subrange(1, 1 + n as int)),
                port_value(rest[1 + n as int], rest[2 + n as int]),
            ),
            used: 3 + n,
        }
    }
}

/// What follows the octet `atyp`, which announces the address type.
pub open spec fn address_message(atyp: u8, rest: Seq<u8>) -> Message<TargetView, AddressError> {
    if atyp == consts::SOCKS5_ADDR_TYPE_IPV4 {
        ip_message(4, rest)
    } else if atyp == consts::SOCKS5_ADDR_TYPE_IPV6 {
        ip_message(16, rest)
    } else if atyp == consts::SOCKS5_ADDR_TYPE_DOMAIN_NAME {
        domain_message(rest)
    } else {
        Message::Failed(AddressError::Type(atyp))
    }
}

/// Where the reading of a destination stands.
#[derive(Debug, PartialEq, Eq)]
pub enum AddressReading {
    /// That many more octets have to be read.
    More(usize),
    /// The destination, and how many octets it took.
    Done(TargetAddr, usize),
    Failed(AddressError),
}

impl View for AddressReading {
    type V = Message<TargetView, AddressError>;

    open spec fn view(&self) -> Message<TargetView, AddressError> {
        match *self {
            AddressReading::More(count) => Message::More {
                count: count as nat,
                failure: AddressError::Truncated,
            },
            AddressReading::Done(target, used) => Message::Done {
                value: target@,
                used: used as nat,
            },
            AddressReading::Failed(e) => Message::Failed(e),
        }
    }
}

/// The four octets of an IPv4 address.
fn octets4(bytes: &[u8]) -> (r: [u8; 4])
    requires
        bytes@.len() >= 4,
    ensures
        r@ == bytes@.take(4),
{
    let octets: [u8; 4] = [bytes[0], bytes[1], bytes[2], bytes[3]];
    assert(octets@ =~= bytes@.take(4));
    octets
}

/// The sixteen octets of an IPv6 address.
fn octets16(bytes: &[u8]) -> (r: [u8; 16])
    requires
        bytes@.len() >= 16,
    ensures
        r@ == bytes@.take(16),
{
    let octets: [u8; 16] = [
        bytes[0], bytes[1], bytes[2], bytes[3], bytes[4], bytes[5], bytes[6], bytes[7],
        bytes[8], bytes[9], bytes[10], bytes[11], bytes[12], bytes[13], bytes[14], bytes[15],
    ];
    assert(octets@ =~= bytes@.take(16));
    octets
}

/// The port that two octets stand for.
fn port_of(high: u8, low: u8) -> (r: u16)
    ensures
        r == port_value(high, low),
{
    high as u16 * 256 + low as u16
}

/// Reads a destination out of `rest`, the octets received so far after the octet `atyp`,
/// which announces the address type.
pub fn read_address(atyp: u8, rest: &[u8]) -> (r: AddressReading)
    ensures
        r@ == address_message(atyp, rest@),
        atyp == 1 && rest@.len() >= 6 ==> {
            &&& r matches AddressReading::Done(TargetAddr::Ip(SocketAddr::V4 { ip, port }), used)
            &&& forall|i: int| 0 <= i < 4 ==> ip@[i] == #[trigger] rest@[i]
            &&& port == rest@[4] * 256 + rest@[5]
            &&& used == 6
        },
        atyp == 4 && rest@.len() >= 18 ==> {
            &&& r matches AddressReading::Done(
                TargetAddr::Ip(SocketAddr::V6 { ip, port, flowinfo: 0, scope_id: 0 }),
                used,
            )
            &&& forall|i: int| 0 <= i < 16 ==> ip@[i] == #[trigger] rest@[i]
            &&& port == rest@[16] * 256 + rest@[17]
            &&& used == 18
        },
        atyp == 3 && rest@.len() >= 1 && rest@.len() >= rest@[0] + 3 && valid_utf8(
            rest@.subrange(1, 1 + rest@[0]),
        ) ==> {
            &&& r matches AddressReading::Done(TargetAddr::Domain(name, port), used)
            &&& name@ == decode_utf8(rest@.subrange(1, 1 + rest@[0]))
            &&& port == rest@[1 + rest@[0]] * 256 + rest@[2 + rest@[0]]
            &&& used == rest@[0] + 3
        },
{
    let len: usize = rest.len();
    if atyp == consts::SOCKS5_ADDR_TYPE_IPV4 {
        if len < 4 {
            AddressReading::More(4 - len)
        } else if len < 6 {
            AddressReading::More(6 - len)
        } else {
            let port: u16 = port_of(rest[4], rest[5]);
            let addr = SocketAddr::V4 { ip: octets4(rest), port };
            AddressReading::Done(TargetAddr::Ip(addr), 6)
        }
    } else if atyp == consts::SOCKS5_ADDR_TYPE_IPV6 {
        if len < 16 {
            AddressReading::More(16 - len)
        } else if len < 18 {
            AddressReading::More(18 - len)
        } else {
            let port: u16 = port_of(rest[16], rest[17]);
            let addr = SocketAddr::V6 { ip: octets16(rest), port, flowinfo: 0, scope_id: 0 };
            AddressReading::Done(TargetAddr::Ip(addr), 18)
        }
    } else if atyp == consts::SOCKS5_ADDR_TYPE_DOMAIN_NAME {
        if len < 1 {
            return AddressReading::More(1);
        }
        let n: usize = rest[0] as usize;
        if len < 1 + n {
            return AddressReading::More(1 + n - len);
        }
        match string_from_utf8(slice_to_vec(slice_subrange(rest, 1, 1 + n))) {
            None => AddressReading::Failed(AddressError::Text),
            Some(name) => {
                if len < 3 + n {
                    AddressReading::More(3 + n - len)
                } else {
                    let port: u16 = port_of(rest[1 + n], rest[2 + n]);
                    AddressReading::Done(TargetAddr::Domain(name, port), 3 + n)
                }
            },
        }
    } else {
        AddressReading::Failed(AddressError::Type(atyp))
    }
}

/// A message carries an IP address as [`address_octets`] says, and a domain name as the
/// octet 3, the number of its octets, these octets in their order, and the port with its
/// high octet first.
pub proof fn target_octets(target: TargetView)
    ensures
        match target {
            TargetView::Ip(addr) => addr.octets.len() == 4 || addr.octets.len() == 16 ==> {
                let n = addr.octets.len() as int;
                &&& target.bytes().len() == n + 3
                &&& target.bytes()[0] == (if n == 4 { 1u8 } else { 4u8 })
                &&& forall|i: int|
                    0 <= i < n ==> target.bytes()[1 + i] == #[trigger] addr.octets[i]
                &&& target.bytes()[n + 1] * 256 + target.bytes()[n + 2] == addr.port
            },
            TargetView::Domain(name, port) => encode_utf8(name).len() <= 255 ==> {
                let n = encode_utf8(name).len() as int;
                &&& target.bytes().len() == n + 4
                &&& target.bytes()[0] == 3
                &&& target.bytes()[1] == n
                &&& target.bytes().subrange(2, 2 + n) == encode_utf8(name)
                &&& target.bytes()[n + 2] * 256 + target.bytes()[n + 3] == port
            },
        },
{
    match target {
        TargetView::Ip(addr) => {
            if addr.octets.len() == 4 || addr.octets.len() == 16 {
                address_octets(addr);
            }
        },
        TargetView::Domain(name, port) => {
            let n = encode_utf8(name).len() as int;
            port_in_network_order(port, 0, 0);
            if n <= 255 {
                assert(target.bytes().subrange(2, 2 + n) =~= encode_utf8(name));
                assert(target.bytes()[n + 2] == port_bytes(port)[0]);
                assert(target.bytes()[n + 3] == port_bytes(port)[1]);
            }
        },
    }
}

/// Octets after the octet that announces an address type, once they are all there, are the
/// address: four or sixteen octets in their order, or a domain name after its length, and
/// then the port with its high octet first. Until then, the octets that are missing are
/// asked for: first those of the address, then those of the port. Other address types, and
/// domain names that are not UTF-8, are turned down.
pub proof fn address_read(atyp: u8, rest: Seq<u8>)
    ensures
        atyp == 1 || atyp == 4 ==> {
            let n: int = if atyp == 1 { 4 } else { 16 };
            &&& rest.len() >= n + 2 ==> {
                &&& address_message(atyp, rest) matches Message::Done {
                    value: TargetView::Ip(addr),
                    used,
                }
                &&& addr.octets.len() == n
                &&& forall|i: int| 0 <= i < n ==> addr.octets[i] == #[trigger] rest[i]
                &&& addr.port == rest[n] * 256 + rest[n + 1]
                &&& addr.flowinfo == 0 && addr.scope_id == 0
                &&& used == n + 2
            }
            &&& rest.len() < n + 2 ==> {
                &&& address_message(atyp, rest) matches Message::More { count, failure }
                &&& count == (if rest.len() < n { n } else { n + 2 }) - rest.len()
                &&& failure == AddressError::Truncated
            }
        },
        atyp == 3 && rest.len() < 1 ==> address_message(atyp, rest) == (Message::<
            TargetView,
            AddressError,
        >::More { count: 1, failure: AddressError::Truncated }),
        atyp == 3 && rest.len() >= 1 ==> {
            let n = rest[0] as int;
            let text = rest.subrange(1, 1 + n);
            &&& rest.len() < 1 + n ==> address_message(atyp, rest) == (Message::<
                TargetView,
                AddressError,
            >::More { count: (1 + n - rest.len()) as nat, failure: AddressError::Truncated })
            &&& rest.len() >= 1 + n && !valid_utf8(text) ==> address_message(atyp, rest)
                == Message::<TargetView, AddressError>::Failed(AddressError::Text)
            &&& 1 + n <= rest.len() < 3 + n && valid_utf8(text) ==> address_message(atyp, rest)
                == (Message::<TargetView, AddressError>::More {
                count: (3 + n - rest.len()) as nat,
                failure: AddressError::Truncated,
            })
            &&& rest.len() >= 3 + n && valid_utf8(text) ==> {
                &&& address_message(atyp, rest) matches Message::Done {
                    value: TargetView::Domain(name, port),
                    used,
                }
                &&& name == decode_utf8(text)
                &&& port == rest[1 + n] * 256 + rest[2 + n]
                &&& used == 3 + n
            }
        },
        atyp != 1 && atyp != 3 && atyp != 4 ==> address_message(atyp, rest) == Message::<
            TargetView,
            AddressError,
        >::Failed(AddressError::Type(atyp)),
{
}

/// A destination stands for its address, or for its domain name and port; what was read
/// stands for the destination and how many octets it took, for how many are missing, or for
/// why it failed.
pub proof fn target_parts(target: TargetAddr, reading: AddressReading)
    ensures
        match target {
            TargetAddr::Ip(addr) => target@ == TargetView::Ip(addr@),
            TargetAddr::Domain(name, port) => target@ == TargetView::Domain(name@, port),
        },
        match reading {
            AddressReading::More(count) => reading@ matches Message::More { count: asked, failure }
                && asked == count && failure == AddressError::Truncated,
            AddressReading::Done(target, used) => reading@ matches Message::Done {
                value,
                used: taken,
            } && value == target@ && taken == used,
            AddressReading::Failed(e) => reading@ matches Message::Failed(why) && why == e,
        },
{
}

/// A destination fits into a message unless its domain name has more than 255 octets. An
/// IP address is what a connection goes to, and keeps its octets and its port on the wire;
/// a domain name cannot be connected to.
pub proof fn target_uses(target: TargetView)
    ensures
        match target {
            TargetView::Ip(addr) => {
                &&& addr.octets.len() == 16 ==> target.encodable()
                &&& addr.octets.len() == 4 && addr.flowinfo == 0 && addr.scope_id == 0
                    ==> target.encodable()
                &&& target.socket_addr() == Ok::<SocketAddrView, ErrorView>(addr)
                &&& target.on_wire() matches TargetView::Ip(kept)
                &&& kept.octets == addr.octets && kept.port == addr.port
                &&& kept.flowinfo == 0 && kept.scope_id == 0
            },
            TargetView::Domain(name, port) => {
                &&& target.encodable() <==> encode_utf8(name).len() <= 255
                &&& target.socket_addr() == Err::<SocketAddrView, ErrorView>(ErrorView::Io)
                &&& target.on_wire() == target
            },
        },
{
}

/// A destination is read back as it was written, whatever follows it.
pub proof fn target_round_trip(target: TargetView, tail: Seq<u8>)
    requires
        target.encodable(),
    ensures
        address_message(target.bytes()[0], target.bytes().skip(1) + tail) == (Message::<
            TargetView,
            AddressError,
        >::Done { value: target.on_wire(), used: (target.bytes().len() - 1) as nat }),
{
    let rest = target.bytes().skip(1) + tail;
    match target {
        TargetView::Ip(addr) => {
            let n = addr.octets.len() as int;
            port_round_trip(addr.port);
            assert(rest.take(n) =~= addr.octets);
        },
        TargetView::Domain(name, port) => {
            let text = encode_utf8(name);
            port_round_trip(port);
            vstd::utf8::encode_utf8_valid_utf8(name);
            vstd::utf8::encode_utf8_decode_utf8(name);
            assert(rest.subrange(1, 1 + text.len() as int) =~= text);
        },
    }
}

/// The octets that a destination was read from are the ones that it is written as.
pub proof fn target_canonical(atyp: u8, rest: Seq<u8>)
    ensures
        address_message(atyp, rest) matches Message::Done { value, used } ==> {
            &&& value.encodable()
            &&& value.on_wire() == value
            &&& used <= rest.len()
            &&& value.bytes() == seq![atyp] + rest.take(used as int)
        },
{
    if let Message::Done { value, used } = address_message(atyp, rest) {
        match value {
            TargetView::Ip(addr) => {
                let n = addr.octets.len() as int;
                port_bytes_round_trip(rest[n], rest[n + 1]);
                assert(value.bytes() =~= seq![atyp] + rest.take(used as int));
            },
            TargetView::Domain(name, port) => {
                let n = rest[0] as int;
                port_bytes_round_trip(rest[1 + n], rest[2 + n]);
                vstd::utf8::decode_utf8_encode_utf8(rest.subrange(1, 1 + n));
                assert(value.bytes() =~= seq![atyp] + rest.take(used as int));
            },
        }
    }
}

/// A destination is read to its last octet and not beyond it.
pub proof fn address_read_exactly(atyp: u8, rest: Seq<u8>)
    ensures
        read_exactly(|octets: Seq<u8>| address_message(atyp, octets), rest),
{
    let message = |octets: Seq<u8>| address_message(atyp, octets);
    if let Message::Done { value, used } = message(rest) {
        assert forall|k: int| 0 <= k < used implies (#[trigger] message(
            rest.take(k),
        ) matches Message::More { count, failure } && 0 < count && k + count <= used) by {
            if atyp == consts::SOCKS5_ADDR_TYPE_DOMAIN_NAME && k >= 1 + rest[0] {
                let n = rest[0] as int;
                assert(rest.take(k).subrange(1, 1 + n) =~= rest.subrange(1, 1 + n));
            }
        }
        assert forall|k: int| used <= k <= rest.len() implies #[trigger] message(rest.take(k))
            == message(rest) by {
            if atyp == consts::SOCKS5_ADDR_TYPE_DOMAIN_NAME {
                let n = rest[0] as int;
                assert(rest.take(k).subrange(1, 1 + n) =~= rest.subrange(1, 1 + n));
            } else {
                let n = used - 2;
                assert(rest.take(k).take(n) =~= rest.take(n));
            }
        }
    }
    if let Message::Failed(e) = message(rest) {
        assert forall|more: Seq<u8>| #[trigger] message(rest + more) == message(rest) by {
            if atyp == consts::SOCKS5_ADDR_TYPE_DOMAIN_NAME {
                let n = rest[0] as int;
                assert((rest + more).subrange(1, 1 + n) =~= rest.subrange(1, 1 + n));
            }
        }
    }
}

} // verus!
