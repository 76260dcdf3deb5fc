//! Messages that arrive over a stream, a few octets at a time.

use vstd::prelude::*;

verus! {

/// How far the octets received so far make up a message.
pub enum Message<V, E> {
    /// The message is not complete. Exactly `count` octets have to be read next; they
    /// are part of the message. `failure` is the error if that read fails.
    More { count: nat, failure: E },
    /// The message is complete: its first `used` octets stand for `value`.
    Done { value: V, used: nat },
    /// This cannot become a message, whatever follows.
    Failed(E),
}

/// A message is read octet by octet up to its end and not beyond it. What is asked for is
/// always part of the message: while fewer than its `used` octets are there more are
/// asked for, none of them past the end, and from then on what follows makes no
/// difference. Nor does it once the octets cannot become a message.
pub open spec fn read_exactly<V, E>(
    message: spec_fn(Seq<u8>) -> Message<V, E>,
    received: Seq<u8>,
) -> bool {
    match message(received) {
        Message::More { count, failure } => 0 < count,
        Message::Done { value, used } => {
            &&& used <= received.len()
            &&& forall|k: int|
                0 <= k < used ==> (#[trigger] message(received.take(k)) matches Message::More {
                    count,
                    failure,
                } && 0 < count && k + count <= used)
            &&& forall|k: int|
                used <= k <= received.len() ==> #[trigger] message(received.take(k)) == message(
                    received,
                )
        },
        Message::Failed(e) => forall|more: Seq<u8>| #[trigger]
            message(received + more) == message(received),
    }
}

} // verus!
