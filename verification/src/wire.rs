//! What a client writes, and how the server reads it.

use vstd::prelude::*;
use vstd::utf8::encode_utf8;

use crate::command::Socks5Command;
use crate::consts;
use crate::error::ErrorView;
use crate::message::{read_exactly, Message};
use crate::protocol::{command_message, credentials_message, methods_message};
use crate::target::{
    address_message, address_read_exactly, target_canonical, target_round_trip, TargetView,
};

verus! {

/// The methods that a client supports.
pub open spec fn greeting(methods: Seq<u8>) -> Seq<u8> {
    seq![consts::SOCKS5_VERSION, methods.len() as u8] + methods
}

/// A username and a password.
pub open spec fn login(version: u8, username: Seq<char>, password: Seq<char>) -> Seq<u8> {
    seq![version, encode_utf8(username).len() as u8] + encode_utf8(username) + seq![
        encode_utf8(password).len() as u8,
    ] + encode_utf8(password)
}

/// A text that a length octet can announce, and that is not empty.
pub open spec fn login_text(text: Seq<char>) -> bool {
    1 <= encode_utf8(text).len() <= 255
}

/// A request.
pub open spec fn request(cmd: Socks5Command, rsv: u8, target: TargetView) -> Seq<u8> {
    seq![consts::SOCKS5_VERSION, cmd.code(), rsv] + target.bytes()
}

/// What a client writes, octet by octet: the octet 5, how many methods there are, and the
/// methods; a version, the username after its length and the password after its length;
/// the octet 5, the octet of the command, a reserved octet, and the destination.
pub proof fn client_octets(
    methods: Seq<u8>,
    version: u8,
    username: Seq<char>,
    password: Seq<char>,
    cmd: Socks5Command,
    rsv: u8,
    target: TargetView,
)
    ensures
        methods.len() <= 255 ==> {
            &&& greeting(methods).len() == 2 + methods.len()
            &&& greeting(methods)[0] == 5
            &&& greeting(methods)[1] == methods.len()
            &&& greeting(methods).skip(2) == methods
        },
        1 <= encode_utf8(username).len() <= 255 && 1 <= encode_utf8(password).len() <= 255 ==> {
            let n = encode_utf8(username).len() as int;
            let m = encode_utf8(password).len() as int;
            let all = login(version, username, password);
            &&& all.len() == 3 + n + m
            &&& all[0] == version
            &&& all[1] == n
            &&& all.subrange(2, 2 + n) == encode_utf8(username)
            &&& all[2 + n] == m
            &&& all.skip(3 + n) == encode_utf8(password)
        },
        login_text(username) <==> 1 <= encode_utf8(username).len() <= 255,
        request(cmd, rsv, target).len() == 3 + target.bytes().len(),
        request(cmd, rsv, target)[0] == 5,
        request(cmd, rsv, target)[1] == match cmd {
            Socks5Command::TCPConnect => 1u8,
            Socks5Command::TCPBind => 2,
            Socks5Command::UDPAssociate => 3,
        },
        request(cmd, rsv, target)[2] == rsv,
        request(cmd, rsv, target).skip(3) == target.bytes(),
{
    let n = encode_utf8(username).len() as int;
    let all = login(version, username, password);
    assert(greeting(methods).skip(2) =~= methods);
    assert(all.subrange(2, 2 + n) =~= encode_utf8(username));
    assert(all.skip(3 + n) =~= encode_utf8(password));
    assert(request(cmd, rsv, target).skip(3) =~= target.bytes());
}

/// The server reads the methods that a client wrote, whatever follows them.
pub proof fn greeting_round_trip(methods: Seq<u8>, tail: Seq<u8>)
    requires
        methods.len() <= 255,
    ensures
        methods_message(greeting(methods) + tail) == (Message::<Seq<u8>, ErrorView>::Done {
            value: methods,
            used: greeting(methods).len(),
        }),
{
    let received = greeting(methods) + tail;
    assert(received.subrange(2, 2 + methods.len() as int) =~= methods);
}

/// The methods that the server reads are the ones that the client wrote.
pub proof fn greeting_canonical(received: Seq<u8>)
    ensures
        methods_message(received) matches Message::Done { value, used } ==> {
            &&& value.len() <= 255
            &&& used <= received.len()
            &&& received.take(used as int) == greeting(value)
        },
{
    if let Message::Done { value, used } = methods_message(received) {
        assert(received.take(used as int) =~= greeting(value));
    }
}

/// The methods are read to their last octet and not beyond it.
pub proof fn methods_read_exactly(received: Seq<u8>)
    ensures
        read_exactly(|octets: Seq<u8>| methods_message(octets), received),
{
    let message = |octets: Seq<u8>| methods_message(octets);
    if let Message::Done { value, used } = message(received) {
        assert forall|k: int| used <= k <= received.len() implies #[trigger] message(
            received.take(k),
        ) == message(received) by {
            assert(received.take(k).subrange(2, used as int) =~= received.subrange(
                2,
                used as int,
            ));
        }
    }
}

/// The server reads the username and the password that a client wrote, whatever follows
/// them.
pub proof fn login_round_trip(
    version: u8,
    username: Seq<char>,
    password: Seq<char>,
    tail: Seq<u8>,
)
    requires
        login_text(username),
        login_text(password),
    ensures
        credentials_message(login(version, username, password) + tail) == (Message::<
            (Seq<char>, Seq<char>),
            ErrorView,
        >::Done {
            value: (username, password),
            used: login(version, username, password).len(),
        }),
{
    let received = login(version, username, password) + tail;
    let user = encode_utf8(username);
    let pass = encode_utf8(password);
    let n = user.len() as int;
    let m = pass.len() as int;
    assert(received.subrange(2, 2 + n) =~= user);
    assert(received[2 + n] == m);
    assert(received.subrange(3 + n, 3 + n + m) =~= pass);
    vstd::utf8::encode_utf8_valid_utf8(username);
    vstd::utf8::encode_utf8_valid_utf8(password);
    vstd::utf8::encode_utf8_decode_utf8(username);
    vstd::utf8::encode_utf8_decode_utf8(password);
}

/// The username and the password that the server reads are the ones that the client
/// wrote.
pub proof fn login_canonical(received: Seq<u8>)
    ensures
        credentials_message(received) matches Message::Done { value, used } ==> {
            &&& login_text(value.0)
            &&& login_text(value.1)
            &&& used <= received.len()
            &&& received.take(used as int) == login(received[0], value.0, value.1)
        },
{
    if let Message::Done { value, used } = credentials_message(received) {
        let n = received[1] as int;
        let m = received[2 + n] as int;
        vstd::utf8::decode_utf8_encode_utf8(received.subrange(2, 2 + n));
        vstd::utf8::decode_utf8_encode_utf8(received.subrange(3 + n, 3 + n + m));
        assert(received.take(used as int) =~= login(received[0], value.0, value.1));
    }
}

/// The credentials are read to their last octet and not beyond it.
pub proof fn credentials_read_exactly(received: Seq<u8>)
    ensures
        read_exactly(|octets: Seq<u8>| credentials_message(octets), received),
{
    let message = |octets: Seq<u8>| credentials_message(octets);
    let n = received[1] as int;
    let m = received[2 + n] as int;
    if let Message::Done { value, used } = message(received) {
        assert forall|k: int| 0 <= k < used implies (#[trigger] message(
            received.take(k),
        ) matches Message::More { count, failure } && 0 < count && k + count <= used) by {
            let part = received.take(k);
            if k >= 2 {
                assert(part[1] == received[1]);
            }
            if k >= 3 + n {
                assert(part[2 + n] == received[2 + n]);
            }
        }
        assert forall|k: int| used <= k <= received.len() implies #[trigger] message(
            received.take(k),
        ) == message(received) by {
            let part = received.take(k);
            assert(part[1] == received[1]);
            assert(part[2 + n] == received[2 + n]);
            assert(part.subrange(2, 2 + n) =~= received.subrange(2, 2 + n));
            assert(part.subrange(3 + n, 3 + n + m) =~= received.subrange(3 + n, 3 + n + m));
        }
    }
    if let Message::Failed(e) = message(received) {
        assert forall|more: Seq<u8>| #[trigger] message(received + more) == message(received) by {
            let longer = received + more;
            assert(longer[1] == received[1]);
            if n >= 1 {
                assert(longer[2 + n] == received[2 + n]);
                if received.len() >= 3 + n + m {
                    assert(longer.subrange(2, 2 + n) =~= received.subrange(2, 2 + n));
                    assert(longer.subrange(3 + n, 3 + n + m) =~= received.subrange(
                        3 + n,
                        3 + n + m,
                    ));
                }
            }
        }
    }
}

/// The server reads the request that a client wrote, whatever follows it.
pub proof fn request_round_trip(cmd: Socks5Command, rsv: u8, target: TargetView, tail: Seq<u8>)
    requires
        target.encodable(),
    ensures
        command_message(request(cmd, rsv, target) + tail) == (Message::<
            (Socks5Command, TargetView),
            ErrorView,
        >::Done { value: (cmd, target.on_wire()), used: request(cmd, rsv, target).len() }),
{
    let received = request(cmd, rsv, target) + tail;
    target_round_trip(target, tail);
    assert(received[3] == target.bytes()[0]);
    assert(received.skip(4) =~= target.bytes().skip(1) + tail);
}

/// The request that the server reads is the one that the client wrote.
pub proof fn request_canonical(received: Seq<u8>)
    ensures
        command_message(received) matches Message::Done { value, used } ==> {
            &&& value.1.encodable()
            &&& used <= received.len()
            &&& received.take(used as int) == request(value.0, received[2], value.1)
        },
{
    if let Message::Done { value, used } = command_message(received) {
        target_canonical(received[3], received.skip(4));
        assert(received.take(used as int) =~= request(value.0, received[2], value.1));
    }
}

/// The request is read to its last octet and not beyond it.
pub proof fn request_read_exactly(received: Seq<u8>)
    ensures
        read_exactly(|octets: Seq<u8>| command_message(octets), received),
{
    let message = |octets: Seq<u8>| command_message(octets);
    let address = |octets: Seq<u8>| address_message(received[3], octets);
    let rest = received.skip(4);
    if received.len() >= 4 {
        address_read_exactly(received[3], rest);
        assert(address(rest) == address_message(received[3], rest));
    }
    if let Message::Done { value, used } = message(received) {
        assert forall|k: int| 0 <= k < used implies (#[trigger] message(
            received.take(k),
        ) matches Message::More { count, failure } && 0 < count && k + count <= used) by {
            if k >= 4 {
                assert(received.take(k).skip(4) =~= rest.take(k - 4));
                assert(address(rest.take(k - 4)) is More);
            }
        }
        assert forall|k: int| used <= k <= received.len() implies #[trigger] message(
            received.take(k),
        ) == message(received) by {
            assert(received.take(k).skip(4) =~= rest.take(k - 4));
            assert(address(rest.take(k - 4)) == address(rest));
        }
    }
    if let Message::Failed(e) = message(received) {
        assert forall|more: Seq<u8>| #[trigger] message(received + more) == message(received) by {
            assert((received + more).skip(4) =~= rest + more);
            if received[0] == consts::SOCKS5_VERSION && Socks5Command::of_code(
                received[1],
            ) is Some {
                assert(address(rest + more) == address(rest));
            }
        }
    }
}

} // verus!
