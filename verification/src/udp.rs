//! Datagrams that are relayed for a client.

use vstd::prelude::*;
use vstd::slice::{slice_subrange, slice_to_vec};
use vstd::utf8::{decode_utf8, valid_utf8};

use crate::addr::{mapped_octets, push_all, SocketAddr, SocketAddrView};
use crate::error::{Context, ErrorView, SocksError};
use crate::message::Message;
use crate::reply::ReplyError;
use crate::target::{
    address_message, address_read, read_address, target_canonical, target_octets,
    target_round_trip, AddressReading, TargetAddr, TargetView,
};

verus! {

/// What a relayed datagram starts with: two reserved octets, a fragment number, and the
/// address at the other end.
pub open spec fn udp_header(frag: u8, target: TargetView) -> Seq<u8> {
    seq![0u8, 0, frag] + target.bytes()
}

/// The header of a datagram that is not a fragment.
pub fn new_udp_header(target: &TargetAddr) -> (r: Result<Vec<u8>, SocksError>)
    ensures
        match r {
            Ok(header) => target@.encodable() && header@ == udp_header(0, target@),
            Err(e) => {
                &&& !target@.encodable()
                &&& e matches SocksError::ExceededMaxDomainLen(n)
                &&& target@ matches TargetView::Domain(name, _)
                &&& n == vstd::utf8::encode_utf8(name).len()
            },
        },
{
    let mut header: Vec<u8> = vec![
        0,
        0,  // reserved
        0,  // fragment number
    ];
    assert(header@ =~= seq![0u8, 0, 0]);
    match target.to_be_bytes() {
        Ok(bytes) => {
            let mut bytes = bytes;
            header.append(&mut bytes);
            Ok(header)
        },
        Err(e) => Err(e),
    }
}

/// The fragment number, the destination and the data of a client's datagram.
pub open spec fn udp_request(req: Seq<u8>) -> Result<(u8, TargetView, Seq<u8>), ErrorView> {
    if req.len() < 2 {
        Err(ErrorView::Other(Context::MalformedRequest))
    } else if req[0] != 0 || req[1] != 0 {
        Err(ErrorView::ReplyError(ReplyError::GeneralFailure))
    } else if req.len() < 4 {
        Err(ErrorView::Other(Context::MalformedRequest))
    } else {
        match address_message(req[3], req.skip(4)) {
            Message::Done { value, used } => Ok((req[2], value, req.skip(4 + used as int))),
            _ => Err(ErrorView::ReplyError(ReplyError::AddressTypeNotSupported)),
        }
    }
}

/// Reads the fragment number, the destination and the data of a client's datagram.
pub fn parse_udp_request<'a>(req: &'a [u8]) -> (r: Result<(u8, TargetAddr, &'a [u8]), SocksError>)
    ensures
        match r {
            Ok((frag, target, data)) => udp_request(req@) == Ok::<
                (u8, TargetView, Seq<u8>),
                ErrorView,
            >((frag, target@, data@)),
            Err(e) => udp_request(req@) == Err::<(u8, TargetView, Seq<u8>), ErrorView>(e@),
        },
{
    let len: usize = req.len();
    if len < 2 {
        return Err(SocksError::Other(Context::MalformedRequest));
    }
    if req[0] != 0 || req[1] != 0 {
        return Err(SocksError::ReplyError(ReplyError::GeneralFailure));
    }
    if len < 4 {
        return Err(SocksError::Other(Context::MalformedRequest));
    }
    match read_address(req[3], slice_subrange(req, 4, len)) {
        AddressReading::Done(target, used) => {
            proof {
                target_canonical(req@[3], req@.skip(4));
            }
            Ok((req[2], target, slice_subrange(req, 4 + used, len)))
        },
        _ => Err(SocksError::ReplyError(ReplyError::AddressTypeNotSupported)),
    }
}

/// What becomes of a client's datagram.
#[derive(Debug, PartialEq, Eq)]
pub enum UdpStep {
    /// It is a fragment: the relay ends.
    Discard,
    /// The domain name has to be looked up first. The first address found goes to
    /// [`udp_resolved`], with the data.
    Resolve(String, u16, Vec<u8>),
    /// The data is sent to the address.
    Send(SocketAddr, Vec<u8>),
}

/// The value that a [`UdpStep`] stands for.
#[verifier::ext_equal]
pub enum UdpStepView {
    Discard,
    Resolve(Seq<char>, u16, Seq<u8>),
    Send(SocketAddrView, Seq<u8>),
}

impl View for UdpStep {
    type V = UdpStepView;

    open spec fn view(&self) -> UdpStepView {
        match *self {
            UdpStep::Discard => UdpStepView::Discard,
            UdpStep::Resolve(name, port, data) => UdpStepView::Resolve(name@, port, data@),
            UdpStep::Send(addr, data) => UdpStepView::Send(addr@, data@),
        }
    }
}

/// What becomes of a client's datagram, once it has been read.
pub open spec fn udp_step(frag: u8, target: TargetView, data: Seq<u8>) -> UdpStepView {
    if frag != 0 {
        UdpStepView::Discard
    } else {
        match target {
            TargetView::Domain(name, port) => UdpStepView::Resolve(name, port, data),
            TargetView::Ip(addr) => UdpStepView::Send(addr.over_ipv6(), data),
        }
    }
}

/// Decides what becomes of a datagram that a client sent.
pub fn handle_udp_request(datagram: &[u8]) -> (r: Result<UdpStep, SocksError>)
    ensures
        match r {
            Ok(step) => udp_request(datagram@) matches Ok((frag, target, data)) && step@
                == udp_step(frag, target, data),
            Err(e) => udp_request(datagram@) == Err::<(u8, TargetView, Seq<u8>), ErrorView>(e@),
        },
{
    match parse_udp_request(datagram) {
        Ok((frag, target, data)) => {
            if frag != 0 {
                return Ok(UdpStep::Discard);
            }
            let data = slice_to_vec(data);
            match target {
                TargetAddr::Domain(name, port) => Ok(UdpStep::Resolve(name, port, data)),
                TargetAddr::Ip(addr) => Ok(udp_resolved(addr, data)),
            }
        },
        Err(e) => Err(e),
    }
}

/// The data goes to the address that its destination was resolved to, over the IPv6
/// socket that it is sent with.
pub fn udp_resolved(addr: SocketAddr, data: Vec<u8>) -> (r: UdpStep)
    ensures
        r@ == UdpStepView::Send(addr@.over_ipv6(), data@),
        r matches UdpStep::Send(to, sent) && sent@ == data@ && match (addr, to) {
            (
                SocketAddr::V4 { ip, port },
                SocketAddr::V6 { ip: mapped, port: kept, flowinfo: 0, scope_id: 0 },
            ) => {
                &&& kept == port
                &&& forall|i: int| 0 <= i < 10 ==> mapped@[i] == 0
                &&& mapped@[10] == 0xff && mapped@[11] == 0xff
                &&& forall|i: int| 0 <= i < 4 ==> mapped@[12 + i] == #[trigger] ip@[i]
            },
            (SocketAddr::V6 { .. }, _) => to == addr,
            _ => false,
        },
{
    UdpStep::Send(addr.over_ipv6(), data)
}

/// The datagram that tells a client what its peer sent.
pub open spec fn udp_response(remote: SocketAddrView, data: Seq<u8>) -> Seq<u8> {
    udp_header(0, TargetView::Ip(remote)) + data
}

/// The datagram that tells a client what its peer sent.
pub fn handle_udp_response(remote: SocketAddr, data: &[u8]) -> (r: Result<Vec<u8>, SocksError>)
    ensures
        r matches Ok(datagram) && datagram@ == udp_response(remote@, data@),
        r matches Ok(datagram) && datagram@[0] == 0 && datagram@[1] == 0 && datagram@[2] == 0,
        match remote {
            SocketAddr::V4 { ip, port } => {
                &&& r matches Ok(datagram)
                &&& datagram@.len() == 10 + data@.len()
                &&& datagram@[3] == 1
                &&& forall|i: int| 0 <= i < 4 ==> datagram@[4 + i] == #[trigger] ip@[i]
                &&& datagram@[8] * 256 + datagram@[9] == port
                &&& datagram@.skip(10) == data@
            },
            SocketAddr::V6 { ip, port, .. } => {
                &&& r matches Ok(datagram)
                &&& datagram@.len() == 22 + data@.len()
                &&& datagram@[3] == 4
                &&& forall|i: int| 0 <= i < 16 ==> datagram@[4 + i] == #[trigger] ip@[i]
                &&& datagram@[20] * 256 + datagram@[21] == port
                &&& datagram@.skip(22) == data@
            },
        },
{
    match new_udp_header(&TargetAddr::Ip(remote)) {
        Ok(header) => {
            let mut datagram = header;
            push_all(&mut datagram, data);
            proof {
                response_octets(remote@, data@);
            }
            Ok(datagram)
        },
        Err(e) => Err(e),
    }
}

/// A header is two zero octets, the fragment number, and the destination.
pub proof fn header_octets(frag: u8, target: TargetView)
    ensures
        udp_header(frag, target).len() == 3 + target.bytes().len(),
        udp_header(frag, target)[0] == 0,
        udp_header(frag, target)[1] == 0,
        udp_header(frag, target)[2] == frag,
        udp_header(frag, target).skip(3) == target.bytes(),
{
    assert(udp_header(frag, target).skip(3) =~= target.bytes());
}

/// What a client is told of its peer: three zero octets, the octet 1 for IPv4 or 4 for
/// IPv6, the octets of the peer's address in their order, its port with the high octet
/// first, and then the data as the peer sent it.
pub proof fn response_octets(remote: SocketAddrView, data: Seq<u8>)
    requires
        remote.octets.len() == 4 || remote.octets.len() == 16,
    ensures
        ({
            let n = remote.octets.len() as int;
            let datagram = udp_response(remote, data);
            &&& datagram.len() == n + 6 + data.len()
            &&& datagram[0] == 0 && datagram[1] == 0 && datagram[2] == 0
            &&& datagram[3] == (if n == 4 { 1u8 } else { 4u8 })
            &&& forall|i: int| 0 <= i < n ==> datagram[4 + i] == #[trigger] remote.octets[i]
            &&& datagram[n + 4] * 256 + datagram[n + 5] == remote.port
            &&& datagram.skip(n + 6) == data
        }),
{
    let n = remote.octets.len() as int;
    let datagram = udp_response(remote, data);
    let bytes = TargetView::Ip(remote).bytes();
    target_octets(TargetView::Ip(remote));
    assert forall|i: int| 0 <= i < n implies datagram[4 + i] == #[trigger] remote.octets[i] by {
        assert(datagram[4 + i] == bytes[1 + i]);
    }
    assert(datagram[n + 4] == bytes[n + 1]);
    assert(datagram[n + 5] == bytes[n + 2]);
    assert(datagram.skip(n + 6) =~= data);
}

/// A client's datagram is two zero octets, a fragment number, a destination, which is read
/// as [`crate::target::address_read`] says, and the data, which is all that follows.
pub proof fn request_read(req: Seq<u8>)
    ensures
        req.len() < 2 ==> udp_request(req) == Err::<(u8, TargetView, Seq<u8>), ErrorView>(
            ErrorView::Other(Context::MalformedRequest),
        ),
        req.len() >= 2 && (req[0] != 0 || req[1] != 0) ==> udp_request(req) == Err::<
            (u8, TargetView, Seq<u8>),
            ErrorView,
        >(ErrorView::ReplyError(ReplyError::GeneralFailure)),
        2 <= req.len() < 4 && req[0] == 0 && req[1] == 0 ==> udp_request(req) == Err::<
            (u8, TargetView, Seq<u8>),
            ErrorView,
        >(ErrorView::Other(Context::MalformedRequest)),
        req.len() >= 4 && req[0] == 0 && req[1] == 0 ==> match address_message(
            req[3],
            req.skip(4),
        ) {
            Message::Done { value, used } => udp_request(req) == Ok::<
                (u8, TargetView, Seq<u8>),
                ErrorView,
            >((req[2], value, req.skip(4 + used as int))),
            _ => udp_request(req) == Err::<(u8, TargetView, Seq<u8>), ErrorView>(
                ErrorView::ReplyError(ReplyError::AddressTypeNotSupported),
            ),
        },
{
}

/// The data of a datagram that is not a fragment goes, unchanged, to the address that the
/// datagram names, an IPv4 address by its octets after ten zero octets and two of ones, at
/// the port that the datagram names. A domain name is looked up first.
pub proof fn datagram_forwarded(req: Seq<u8>)
    requires
        req.len() >= 4,
        req[0] == 0,
        req[1] == 0,
        req[2] == 0,
    ensures
        req[3] == 1 && req.len() >= 10 ==> {
            &&& udp_request(req) matches Ok((frag, target, data))
            &&& udp_step(frag, target, data) matches UdpStepView::Send(addr, sent)
            &&& sent == req.skip(10)
            &&& addr.octets.len() == 16
            &&& forall|i: int| 0 <= i < 10 ==> addr.octets[i] == 0
            &&& addr.octets[10] == 0xff && addr.octets[11] == 0xff
            &&& forall|i: int| 12 <= i < 16 ==> #[trigger] addr.octets[i] == req[i - 8]
            &&& addr.port == req[8] * 256 + req[9]
        },
        req[3] == 4 && req.len() >= 22 ==> {
            &&& udp_request(req) matches Ok((frag, target, data))
            &&& udp_step(frag, target, data) matches UdpStepView::Send(addr, sent)
            &&& sent == req.skip(22)
            &&& addr.octets.len() == 16
            &&& forall|i: int| 0 <= i < 16 ==> #[trigger] addr.octets[i] == req[4 + i]
            &&& addr.port == req[20] * 256 + req[21]
        },
        req[3] == 3 && req.len() >= 5 && req.len() >= 7 + req[4] && valid_utf8(
            req.subrange(5, 5 + req[4]),
        ) ==> {
            &&& udp_request(req) matches Ok((frag, target, data))
            &&& udp_step(frag, target, data) matches UdpStepView::Resolve(name, port, kept)
            &&& name == decode_utf8(req.subrange(5, 5 + req[4]))
            &&& port == req[5 + req[4]] * 256 + req[6 + req[4]]
            &&& kept == req.skip(7 + req[4])
        },
{
    let rest = req.skip(4);
    address_read(req[3], rest);
    if let Message::Done { value: TargetView::Ip(addr), used } = address_message(req[3], rest) {
        mapped_octets(addr);
        assert forall|i: int| 0 <= i < addr.octets.len() implies #[trigger] addr.octets[i]
            == req[4 + i] by {
            assert(rest[i] == req[4 + i]);
        }
        if req[3] == 1 {
            let mapped = addr.over_ipv6();
            assert forall|i: int| 12 <= i < 16 implies #[trigger] mapped.octets[i] == req[i - 8] by {
                assert(mapped.octets[12 + (i - 12)] == addr.octets[i - 12]);
            }
        }
    }
    if req[3] == 3 && req.len() >= 5 {
        let n = req[4] as int;
        assert(rest[0] == req[4]);
        if req.len() >= 7 + n {
            assert(rest.subrange(1, 1 + n) =~= req.subrange(5, 5 + n));
            assert(rest[1 + n] == req[5 + n]);
            assert(rest[2 + n] == req[6 + n]);
        }
    }
}

/// A fragment is never forwarded, whatever its destination and its data, and a datagram
/// that is not one always is: to its own address, or to the address that its own domain
/// name is found to have.
pub proof fn fragments_discarded(frag: u8, target: TargetView, data: Seq<u8>)
    ensures
        frag != 0 <==> udp_step(frag, target, data) == UdpStepView::Discard,
        frag == 0 ==> match target {
            TargetView::Ip(addr) => {
                &&& udp_step(frag, target, data) matches UdpStepView::Send(to, sent)
                &&& sent == data
                &&& to.port == addr.port
                &&& addr.octets.len() == 16 ==> to == addr
                &&& addr.octets.len() == 4 ==> to.octets.skip(12) == addr.octets
            },
            TargetView::Domain(name, port) => udp_step(frag, target, data)
                == UdpStepView::Resolve(name, port, data),
        },
{
    if let TargetView::Ip(addr) = target {
        mapped_octets(addr);
        if addr.octets.len() == 4 {
            assert(addr.over_ipv6().octets.skip(12) =~= addr.octets);
        }
    }
}

/// What becomes of a datagram stands for what it says.
pub proof fn step_parts(step: UdpStep)
    ensures
        match step {
            UdpStep::Discard => step@ == UdpStepView::Discard,
            UdpStep::Resolve(name, port, data) => step@ == UdpStepView::Resolve(
                name@,
                port,
                data@,
            ),
            UdpStep::Send(addr, data) => step@ == UdpStepView::Send(addr@, data@),
        },
{
}

/// A datagram is read back as it was written: fragment number, destination and data.
pub proof fn udp_round_trip(frag: u8, target: TargetView, data: Seq<u8>)
    requires
        target.encodable(),
    ensures
        udp_request(udp_header(frag, target) + data) == Ok::<
            (u8, TargetView, Seq<u8>),
            ErrorView,
        >((frag, target.on_wire(), data)),
{
    let req = udp_header(frag, target) + data;
    let bytes = target.bytes();
    target_round_trip(target, data);
    assert(req[3] == bytes[0]);
    assert(req.skip(4) =~= bytes.skip(1) + data);
    assert(req.skip(4 + bytes.len() - 1) =~= data);
}

/// The octets that a datagram was read from are the ones that it is written as.
pub proof fn udp_canonical(req: Seq<u8>)
    ensures
        udp_request(req) matches Ok((frag, target, data)) ==> target.encodable() && req
            == udp_header(frag, target) + data,
{
    if let Ok((frag, target, data)) = udp_request(req) {
        target_canonical(req[3], req.skip(4));
        assert(req =~= udp_header(frag, target) + data);
    }
}

/// The client reads, out of each datagram that it is sent, who of its peers sent what, and
/// it reads them in the order in which they came.
pub proof fn responses_read_back(peers: Seq<(SocketAddrView, Seq<u8>)>)
    requires
        forall|i: int| 0 <= i < peers.len() ==> (#[trigger] peers[i]).0.wf(),
    ensures
        peers.map_values(
            |peer: (SocketAddrView, Seq<u8>)| udp_request(udp_response(peer.0, peer.1)),
        ) == peers.map_values(
            |peer: (SocketAddrView, Seq<u8>)|
                Ok::<(u8, TargetView, Seq<u8>), ErrorView>(
                    (
                        0u8,
                        TargetView::Ip(SocketAddrView::of(peer.0.octets, peer.0.port)),
                        peer.1,
                    ),
                ),
        ),
{
    assert forall|i: int| 0 <= i < peers.len() implies udp_request(
        udp_response((#[trigger] peers[i]).0, peers[i].1),
    ) == Ok::<(u8, TargetView, Seq<u8>), ErrorView>(
        (
            0u8,
            TargetView::Ip(SocketAddrView::of(peers[i].0.octets, peers[i].0.port)),
            peers[i].1,
        ),
    ) by {
        udp_round_trip(0, TargetView::Ip(peers[i].0), peers[i].1);
    }
}

/// Every address is reached over an IPv6 socket, at its own port. What an IPv6 socket
/// reaches as it is stays, and two addresses of one family that are reached in the same
/// way are the same.
pub proof fn over_ipv6_reaches(a: SocketAddrView, b: SocketAddrView)
    requires
        a.wf(),
        b.wf(),
    ensures
        a.over_ipv6().wf(),
        a.over_ipv6().octets.len() == 16,
        a.over_ipv6().port == a.port,
        a.over_ipv6().over_ipv6() == a.over_ipv6(),
        a.octets.len() == b.octets.len() && a.over_ipv6() == b.over_ipv6() ==> a == b,
{
    if a.octets.len() == 4 && b.octets.len() == 4 && a.over_ipv6() == b.over_ipv6() {
        assert(a.octets =~= a.over_ipv6().octets.skip(12));
        assert(b.octets =~= b.over_ipv6().octets.skip(12));
    }
}

} // verus!
