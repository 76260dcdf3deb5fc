//! Network addresses as plain values.

use vstd::prelude::*;

use crate::consts;

verus! {

/// An IP address, as its octets in network order.
#[derive(Copy, Clone, Debug, PartialEq, Eq)]
pub enum IpAddr {
    V4([u8; 4]),
    V6([u8; 16]),
}

impl View for IpAddr {
    type V = Seq<u8>;

    /// The octets: four of them for IPv4, sixteen for IPv6.
    open spec fn view(&self) -> Seq<u8> {
        match *self {
            IpAddr::V4(octets) => octets@,
            IpAddr::V6(octets) => octets@,
        }
    }
}

/// An IP address with a port.
#[derive(Copy, Clone, Debug, PartialEq, Eq)]
pub enum SocketAddr {
    V4 { ip: [u8; 4], port: u16 },
    V6 { ip: [u8; 16], port: u16, flowinfo: u32, scope_id: u32 },
}

/// The value that a [`SocketAddr`] stands for. An IPv4 address has neither flow
/// information nor a scope: both are zero.
#[verifier::ext_equal]
pub struct SocketAddrView {
    pub octets: Seq<u8>,
    pub port: u16,
    pub flowinfo: u32,
    pub scope_id: u32,
}

impl SocketAddrView {
    /// The address has as many octets as one of the two families.
    pub open spec fn wf(self) -> bool {
        &&& self.octets.len() == 4 || self.octets.len() == 16
        &&& self.octets.len() == 4 ==> self.flowinfo == 0 && self.scope_id == 0
    }

    /// The address with this IP address and this port, and nothing more.
    pub open spec fn of(octets: Seq<u8>, port: u16) -> SocketAddrView {
        SocketAddrView { octets, port, flowinfo: 0, scope_id: 0 }
    }

    /// The octet that announces the address family.
    pub open spec fn atyp(self) -> u8 {
        if self.octets.len() == 4 {
            consts::SOCKS5_ADDR_TYPE_IPV4
        } else {
            consts::SOCKS5_ADDR_TYPE_IPV6
        }
    }

    /// The address as a message carries it: family, octets, port.
    pub open spec fn bytes(self) -> Seq<u8> {
        seq![self.atyp()] + self.octets + port_bytes(self.port)
    }

    /// The address as an IPv6 socket reaches it: an IPv4 address is mapped into IPv6,
    /// an IPv6 address stays.
    pub open spec fn over_ipv6(self) -> SocketAddrView {
        if self.octets.len() == 4 {
            SocketAddrView::of(mapped_prefix() + self.octets, self.port)
        } else {
            self
        }
    }
}

impl View for SocketAddr {
    type V = SocketAddrView;

    open spec fn view(&self) -> SocketAddrView {
        match *self {
            SocketAddr::V4 { ip, port } => SocketAddrView {
                octets: ip@,
                port,
                flowinfo: 0,
                scope_id: 0,
            },
            SocketAddr::V6 { ip, port, flowinfo, scope_id } => SocketAddrView {
                octets: ip@,
                port,
                flowinfo,
                scope_id,
            },
        }
    }
}

/// A port in network order.
pub open spec fn port_bytes(port: u16) -> Seq<u8> {
    seq![(port / 256) as u8, (port % 256) as u8]
}

/// The port that two octets in network order stand for.
pub open spec fn port_value(high: u8, low: u8) -> u16 {
    (high * 256 + low) as u16
}

/// What an IPv4-mapped IPv6 address starts with: ten zero octets, then two of ones.
pub open spec fn mapped_prefix() -> Seq<u8> {
    seq![0u8, 0, 0, 0, 0, 0, 0, 0, 0, 0, 0xff, 0xff]
}

/// A port goes over the wire with its high octet first: the first of the two octets counts
/// 256 times, and the second once.
pub proof fn port_in_network_order(port: u16, high: u8, low: u8)
    ensures
        port_bytes(port).len() == 2,
        port_bytes(port)[0] * 256 + port_bytes(port)[1] == port,
        port_value(high, low) == high * 256 + low,
{
}

/// An IPv4 address is reached over IPv6 as ten zero octets, two octets of ones, and its
/// own four octets in their order, at its own port. An IPv6 address stays as it is.
pub proof fn mapped_octets(addr: SocketAddrView)
    ensures
        addr.octets.len() == 4 ==> {
            let mapped = addr.over_ipv6();
            &&& mapped.octets.len() == 16
            &&& forall|i: int| 0 <= i < 10 ==> mapped.octets[i] == 0
            &&& mapped.octets[10] == 0xff && mapped.octets[11] == 0xff
            &&& forall|i: int| 0 <= i < 4 ==> mapped.octets[12 + i] == #[trigger] addr.octets[i]
            &&& mapped.port == addr.port
            &&& mapped.flowinfo == 0 && mapped.scope_id == 0
        },
        addr.octets.len() != 4 ==> addr.over_ipv6() == addr,
{
}

/// A message carries an address as the octet 1 for IPv4 or 4 for IPv6, then the octets of
/// the address in their order, then the port with its high octet first, and nothing else.
pub proof fn address_octets(addr: SocketAddrView)
    requires
        addr.octets.len() == 4 || addr.octets.len() == 16,
    ensures
        addr.bytes().len() == addr.octets.len() + 3,
        addr.bytes()[0] == (if addr.octets.len() == 4 { 1u8 } else { 4u8 }),
        forall|i: int|
            0 <= i < addr.octets.len() ==> addr.bytes()[1 + i] == #[trigger] addr.octets[i],
        addr.bytes()[addr.octets.len() as int + 1] * 256 + addr.bytes()[addr.octets.len() as int
            + 2] == addr.port,
{
    port_in_network_order(addr.port, 0, 0);
    let n = addr.octets.len() as int;
    assert(addr.bytes()[n + 1] == port_bytes(addr.port)[0]);
    assert(addr.bytes()[n + 2] == port_bytes(addr.port)[1]);
}

/// An IP address stands for its octets, in their order, and an address with a port for
/// these, its port, and what else it holds.
pub proof fn address_parts(ip: IpAddr, addr: SocketAddr, octets: Seq<u8>, port: u16)
    ensures
        match ip {
            IpAddr::V4(given) => ip@ == given@,
            IpAddr::V6(given) => ip@ == given@,
        },
        match addr {
            SocketAddr::V4 { ip, port } => {
                &&& addr@.octets == ip@
                &&& addr@.port == port
                &&& addr@.flowinfo == 0 && addr@.scope_id == 0
            },
            SocketAddr::V6 { ip, port, flowinfo, scope_id } => {
                &&& addr@.octets == ip@
                &&& addr@.port == port
                &&& addr@.flowinfo == flowinfo && addr@.scope_id == scope_id
            },
        },
        SocketAddrView::of(octets, port).octets == octets,
        SocketAddrView::of(octets, port).port == port,
        SocketAddrView::of(octets, port).flowinfo == 0,
        SocketAddrView::of(octets, port).scope_id == 0,
{
}

/// A port survives the way over the wire.
pub proof fn port_round_trip(port: u16)
    ensures
        port_value(port_bytes(port)[0], port_bytes(port)[1]) == port,
{
}

/// The two octets of a port are the only ones that stand for it.
pub proof fn port_bytes_round_trip(high: u8, low: u8)
    ensures
        port_bytes(port_value(high, low)) == seq![high, low],
{
}

/// Every address has as many octets as its family.
pub proof fn socket_addr_wf(addr: SocketAddr)
    ensures
        addr@.wf(),
{
}

/// Appends the octets of `bytes` to `out`.
pub(crate) fn push_all(out: &mut Vec<u8>, bytes: &[u8])
    ensures
        final(out)@ == old(out)@ + bytes@,
{
    out.extend_from_slice(bytes);
    assert(out@ =~= old(out)@ + bytes@);
}

/// Appends a port in network order to `out`.
pub(crate) fn push_port(out: &mut Vec<u8>, port: u16)
    ensures
        final(out)@ == old(out)@ + port_bytes(port),
        final(out)@.len() == old(out)@.len() + 2,
        final(out)@[old(out)@.len() as int] * 256 + final(out)@[old(out)@.len() as int + 1]
            == port,
{
    out.push((port / 256) as u8);
    out.push((port % 256) as u8);
    assert(out@ =~= old(out)@ + port_bytes(port));
}

impl SocketAddr {
    /// The address with this IP address and this port.
    pub fn new(ip: IpAddr, port: u16) -> (r: SocketAddr)
        ensures
            r@ == SocketAddrView::of(ip@, port),
            match ip {
                IpAddr::V4(octets) => r == (SocketAddr::V4 { ip: octets, port }),
                IpAddr::V6(octets) => r == (SocketAddr::V6 {
                    ip: octets,
                    port,
                    flowinfo: 0,
                    scope_id: 0,
                }),
            },
    {
        match ip {
            IpAddr::V4(ip) => SocketAddr::V4 { ip, port },
            IpAddr::V6(ip) => SocketAddr::V6 { ip, port, flowinfo: 0, scope_id: 0 },
        }
    }

    /// Appends the address as a message carries it.
    pub(crate) fn push_bytes(&self, out: &mut Vec<u8>)
        ensures
            final(out)@ == old(out)@ + self@.bytes(),
    {
        match *self {
            SocketAddr::V4 { ip, port } => {
                out.push(consts::SOCKS5_ADDR_TYPE_IPV4);
                push_all(out, ip.as_slice());
                push_port(out, port);
            },
            SocketAddr::V6 { ip, port, .. } => {
                out.push(consts::SOCKS5_ADDR_TYPE_IPV6);
                push_all(out, ip.as_slice());
                push_port(out, port);
            },
        }
        assert(out@ =~= old(out)@ + self@.bytes());
    }

    /// The address as an IPv6 socket reaches it: an IPv4 address is mapped into IPv6,
    /// an IPv6 address stays.
    pub fn over_ipv6(self) -> (r: SocketAddr)
        ensures
            r@ == self@.over_ipv6(),
            match self {
                SocketAddr::V4 { ip, port } => {
                    &&& r matches SocketAddr::V6 {
                        ip: mapped,
                        port: kept,
                        flowinfo: 0,
                        scope_id: 0,
                    }
                    &&& kept == port
                    &&& forall|i: int| 0 <= i < 10 ==> mapped@[i] == 0
                    &&& mapped@[10] == 0xff && mapped@[11] == 0xff
                    &&& forall|i: int| 0 <= i < 4 ==> mapped@[12 + i] == #[trigger] ip@[i]
                },
                SocketAddr::V6 { .. } => r == self,
            },
    {
        match self {
            SocketAddr::V4 { ip, port } => {
                let mapped: [u8; 16] = [
                    0, 0, 0, 0, 0, 0, 0, 0, 0, 0, 0xff, 0xff, ip[0], ip[1], ip[2], ip[3],
                ];
                assert(mapped@ =~= mapped_prefix() + ip@);
                SocketAddr::V6 { ip: mapped, port, flowinfo: 0, scope_id: 0 }
            },
            SocketAddr::V6 { .. } => self,
        }
    }
}

} // verus!
