//! The relay of a client's datagrams, one after the other.
//!
//! A [`UdpRelay`] decides what happens next and never does it: [`UdpRelay::action`] says
//! what the driver has to do, and [`UdpRelay::resume`] takes in how it went.

use vstd::prelude::*;
use vstd::slice::slice_to_vec;

use crate::addr::{mapped_octets, SocketAddr, SocketAddrView};
use crate::error::{ErrorView, Fault, SocksError};
use crate::target::TargetView;
use crate::udp::{
    fragments_discarded, handle_udp_request, udp_request, udp_resolved, udp_step, UdpStep,
    UdpStepView,
};

verus! {

/// What the driver has to do.
#[derive(Debug, PartialEq, Eq)]
pub enum UdpAction {
    /// Receive the client's next datagram. Its sender gets the answers from now on.
    Receive,
    /// Look the domain name up.
    ResolveDns(String, u16),
    /// Send the data to the address.
    Send(SocketAddr, Vec<u8>),
}

/// The value that a [`UdpAction`] stands for.
#[verifier::ext_equal]
pub enum UdpActionView {
    Receive,
    ResolveDns(Seq<char>, u16),
    Send(SocketAddrView, Seq<u8>),
}

impl View for UdpAction {
    type V = UdpActionView;

    open spec fn view(&self) -> UdpActionView {
        match *self {
            UdpAction::Receive => UdpActionView::Receive,
            UdpAction::ResolveDns(name, port) => UdpActionView::ResolveDns(name@, port),
            UdpAction::Send(addr, data) => UdpActionView::Send(addr@, data@),
        }
    }
}

/// How the driver's action went.
#[derive(Debug, PartialEq, Eq)]
pub enum UdpEvent {
    /// This datagram was received.
    Received(Vec<u8>),
    /// The first address that the domain name has.
    Resolved(SocketAddr),
    /// The data was sent.
    Sent,
    /// It failed.
    Failed(Fault),
}

/// The value that a [`UdpEvent`] stands for.
pub enum UdpEventView {
    Received(Seq<u8>),
    Resolved(SocketAddrView),
    Sent,
    Failed(Fault),
}

impl View for UdpEvent {
    type V = UdpEventView;

    open spec fn view(&self) -> UdpEventView {
        match *self {
            UdpEvent::Received(datagram) => UdpEventView::Received(datagram@),
            UdpEvent::Resolved(addr) => UdpEventView::Resolved(addr@),
            UdpEvent::Sent => UdpEventView::Sent,
            UdpEvent::Failed(fault) => UdpEventView::Failed(fault),
        }
    }
}

impl UdpActionView {
    /// Whether `event` tells how this action went.
    pub open spec fn answered_by(self, event: UdpEventView) -> bool {
        match (self, event) {
            (_, UdpEventView::Failed(_)) => true,
            (UdpActionView::Receive, UdpEventView::Received(_)) => true,
            (UdpActionView::ResolveDns(..), UdpEventView::Resolved(addr)) => addr.wf(),
            (UdpActionView::Send(..), UdpEventView::Sent) => true,
            _ => false,
        }
    }
}

/// The value that a [`UdpRelay`] stands for.
#[verifier::ext_equal]
pub enum UdpRelayView {
    /// A datagram is being received.
    Receiving,
    /// The domain name that it is for is being looked up.
    Resolving { name: Seq<char>, port: u16, data: Seq<u8> },
    /// Its data is being sent.
    Sending { addr: SocketAddrView, data: Seq<u8> },
}

/// The value that a [`UdpProgress`] stands for.
pub enum UdpProgressView {
    /// There is an action to perform.
    Pending(UdpRelayView),
    /// The relay has come to its end.
    Finished,
    /// The relay cannot go on.
    Failed(ErrorView),
}

impl UdpRelayView {
    /// What the driver has to do.
    pub open spec fn action(self) -> UdpActionView {
        match self {
            UdpRelayView::Receiving => UdpActionView::Receive,
            UdpRelayView::Resolving { name, port, .. } => UdpActionView::ResolveDns(name, port),
            UdpRelayView::Sending { addr, data } => UdpActionView::Send(addr, data),
        }
    }

    /// The action went as `event` tells. An event that does not tell how the action went
    /// leaves the relay where it is.
    pub open spec fn resume(self, event: UdpEventView) -> UdpProgressView {
        match (self, event) {
            (_, UdpEventView::Failed(fault)) => UdpProgressView::Failed(fault.error()),
            (UdpRelayView::Receiving, UdpEventView::Received(datagram)) => match udp_request(
                datagram,
            ) {
                Ok((frag, target, data)) => match udp_step(frag, target, data) {
                    UdpStepView::Discard => UdpProgressView::Finished,
                    UdpStepView::Resolve(name, port, data) => UdpProgressView::Pending(
                        UdpRelayView::Resolving { name, port, data },
                    ),
                    UdpStepView::Send(addr, data) => UdpProgressView::Pending(
                        UdpRelayView::Sending { addr, data },
                    ),
                },
                Err(e) => UdpProgressView::Failed(e),
            },
            (
                UdpRelayView::Resolving { data, .. },
                UdpEventView::Resolved(addr),
            ) => UdpProgressView::Pending(
                UdpRelayView::Sending { addr: addr.over_ipv6(), data },
            ),
            (UdpRelayView::Sending { .. }, UdpEventView::Sent) => UdpProgressView::Pending(
                UdpRelayView::Receiving,
            ),
            _ => UdpProgressView::Pending(self),
        }
    }
}

enum Stage {
    Receiving,
    Resolving { name: String, port: u16, data: Vec<u8> },
    Sending { addr: SocketAddr, data: Vec<u8> },
}

/// The relay of a client's datagrams, waiting for an action to be performed.
pub struct UdpRelay {
    stage: Stage,
}

impl View for UdpRelay {
    type V = UdpRelayView;

    closed spec fn view(&self) -> UdpRelayView {
        match self.stage {
            Stage::Receiving => UdpRelayView::Receiving,
            Stage::Resolving { name, port, data } => UdpRelayView::Resolving {
                name: name@,
                port,
                data: data@,
            },
            Stage::Sending { addr, data } => UdpRelayView::Sending { addr: addr@, data: data@ },
        }
    }
}

/// How far the relay has come.
pub enum UdpProgress {
    /// There is an action to perform.
    Pending(UdpRelay),
    /// The relay has come to its end.
    Finished,
    /// The relay cannot go on.
    Failed(SocksError),
}

impl View for UdpProgress {
    type V = UdpProgressView;

    open spec fn view(&self) -> UdpProgressView {
        match *self {
            UdpProgress::Pending(relay) => UdpProgressView::Pending(relay@),
            UdpProgress::Finished => UdpProgressView::Finished,
            UdpProgress::Failed(e) => UdpProgressView::Failed(e@),
        }
    }
}

impl UdpRelay {
    /// A relay that waits for the client's first datagram.
    pub fn start() -> (r: Self)
        ensures
            r@ == UdpRelayView::Receiving,
    {
        UdpRelay { stage: Stage::Receiving }
    }

    /// What the driver has to do.
    pub fn action(&self) -> (r: UdpAction)
        ensures
            r@ == self@.action(),
    {
        match &self.stage {
            Stage::Receiving => UdpAction::Receive,
            Stage::Resolving { name, port, .. } => UdpAction::ResolveDns(name.clone(), *port),
            Stage::Sending { addr, data } => UdpAction::Send(*addr, slice_to_vec(data.as_slice())),
        }
    }

    /// What becomes of the relay after a datagram was read, or its destination found.
    fn follow(step: UdpStep) -> (r: UdpProgress)
        ensures
            r@ == match step@ {
                UdpStepView::Discard => UdpProgressView::Finished,
                UdpStepView::Resolve(name, port, data) => UdpProgressView::Pending(
                    UdpRelayView::Resolving { name, port, data },
                ),
                UdpStepView::Send(addr, data) => UdpProgressView::Pending(
                    UdpRelayView::Sending { addr, data },
                ),
            },
    {
        match step {
            UdpStep::Discard => UdpProgress::Finished,
            UdpStep::Resolve(name, port, data) => UdpProgress::Pending(
                UdpRelay { stage: Stage::Resolving { name, port, data } },
            ),
            UdpStep::Send(addr, data) => UdpProgress::Pending(
                UdpRelay { stage: Stage::Sending { addr, data } },
            ),
        }
    }

    /// Goes on after the action went as `event` tells. An event that does not tell how the
    /// action went leaves the relay where it is.
    pub fn resume(self, event: UdpEvent) -> (r: UdpProgress)
        ensures
            r@ == self@.resume(event@),
    {
        match (self.stage, event) {
            (_, UdpEvent::Failed(fault)) => UdpProgress::Failed(fault.into_error()),
            (Stage::Receiving, UdpEvent::Received(datagram)) => match handle_udp_request(
                datagram.as_slice(),
            ) {
                Ok(step) => UdpRelay::follow(step),
                Err(e) => UdpProgress::Failed(e),
            },
            (Stage::Resolving { data, .. }, UdpEvent::Resolved(addr)) => UdpRelay::follow(
                udp_resolved(addr, data),
            ),
            (Stage::Sending { .. }, UdpEvent::Sent) => UdpProgress::Pending(UdpRelay::start()),
            (stage, _) => UdpProgress::Pending(UdpRelay { stage }),
        }
    }
}

/// A relay that receives a datagram goes by what the datagram says, and by nothing else: it
/// ends at a fragment, fails over what cannot be read, looks a domain name up, and sends to
/// an address. What it looked up the name for is then sent, unchanged, to the address that
/// was found. After it was sent, the next datagram is received. An action that failed ends
/// the relay with that failure.
pub proof fn relay_steps(relay: UdpRelayView, event: UdpEventView)
    ensures
        event matches UdpEventView::Failed(fault) ==> relay.resume(event)
            == UdpProgressView::Failed(fault.error()),
        match relay {
            UdpRelayView::Receiving => {
                &&& relay.action() == UdpActionView::Receive
                &&& event matches UdpEventView::Received(datagram) ==> match udp_request(datagram) {
                    Err(e) => relay.resume(event) == UdpProgressView::Failed(e),
                    Ok((frag, target, data)) => {
                        &&& frag != 0 ==> relay.resume(event) == UdpProgressView::Finished
                        &&& frag == 0 ==> match target {
                            TargetView::Domain(name, port) => relay.resume(event)
                                == UdpProgressView::Pending(
                                UdpRelayView::Resolving { name, port, data },
                            ),
                            TargetView::Ip(addr) => {
                                &&& relay.resume(event) matches UdpProgressView::Pending(next)
                                &&& next.action() matches UdpActionView::Send(to, sent)
                                &&& next == (UdpRelayView::Sending { addr: to, data: sent })
                                &&& sent == data
                                &&& to.port == addr.port
                                &&& addr.octets.len() == 16 ==> to == addr
                                &&& addr.octets.len() == 4 ==> to.octets.skip(12) == addr.octets
                            },
                        }
                    },
                }
            },
            UdpRelayView::Resolving { name, port, data } => {
                &&& relay.action() == UdpActionView::ResolveDns(name, port)
                &&& event matches UdpEventView::Resolved(addr) ==> {
                    &&& relay.resume(event) matches UdpProgressView::Pending(next)
                    &&& next.action() matches UdpActionView::Send(to, sent)
                    &&& next == (UdpRelayView::Sending { addr: to, data: sent })
                    &&& sent == data
                    &&& to.port == addr.port
                    &&& addr.octets.len() == 16 ==> to == addr
                    &&& addr.octets.len() == 4 ==> to.octets.len() == 16 && to.octets.skip(12)
                        == addr.octets
                    &&& addr.octets.len() == 4 ==> forall|i: int|
                        0 <= i < 12 ==> to.octets[i] == (if i < 10 { 0u8 } else { 0xffu8 })
                }
            },
            UdpRelayView::Sending { addr, data } => {
                &&& relay.action() == UdpActionView::Send(addr, data)
                &&& event == UdpEventView::Sent ==> relay.resume(event)
                    == UdpProgressView::Pending(UdpRelayView::Receiving)
            },
        },
        !relay.action().answered_by(event) ==> relay.resume(event) == UdpProgressView::Pending(
            relay,
        ) || (event matches UdpEventView::Resolved(addr) && !addr.wf()),
{
    if let UdpEventView::Received(datagram) = event {
        if let Ok((frag, target, data)) = udp_request(datagram) {
            fragments_discarded(frag, target, data);
        }
    }
    if let UdpEventView::Resolved(addr) = event {
        mapped_octets(addr);
        if addr.octets.len() == 4 {
            assert(addr.over_ipv6().octets.skip(12) =~= addr.octets);
        }
    }
}

/// An action and an event stand for what they say.
pub proof fn relay_parts(action: UdpAction, event: UdpEvent, progress: UdpProgress)
    ensures
        match action {
            UdpAction::Receive => action@ == UdpActionView::Receive,
            UdpAction::ResolveDns(name, port) => action@ == UdpActionView::ResolveDns(name@, port),
            UdpAction::Send(addr, data) => action@ == UdpActionView::Send(addr@, data@),
        },
        match event {
            UdpEvent::Received(datagram) => event@ == UdpEventView::Received(datagram@),
            UdpEvent::Resolved(addr) => event@ == UdpEventView::Resolved(addr@),
            UdpEvent::Sent => event@ == UdpEventView::Sent,
            UdpEvent::Failed(fault) => event@ == UdpEventView::Failed(fault),
        },
        match progress {
            UdpProgress::Pending(relay) => progress@ == UdpProgressView::Pending(relay@),
            UdpProgress::Finished => progress@ == UdpProgressView::Finished,
            UdpProgress::Failed(e) => progress@ == UdpProgressView::Failed(e@),
        },
{
}

/// How far the relay has come after the actions went as `events` tell.
pub open spec fn progress(events: Seq<UdpEventView>) -> UdpProgressView
    decreases events.len(),
{
    if events.len() == 0 {
        UdpProgressView::Pending(UdpRelayView::Receiving)
    } else {
        match progress(events.drop_last()) {
            UdpProgressView::Pending(relay) => relay.resume(events.last()),
            over => over,
        }
    }
}

/// The driver did each time what it had to, and reported how that went.
pub open spec fn run(events: Seq<UdpEventView>) -> bool
    decreases events.len(),
{
    events.len() > 0 ==> {
        &&& run(events.drop_last())
        &&& progress(events.drop_last()) matches UdpProgressView::Pending(relay)
        &&& relay.action().answered_by(events.last())
    }
}

/// A datagram of the client, and the address that its domain name was resolved to, if it
/// was.
#[verifier::ext_equal]
pub struct Arrival {
    pub datagram: Seq<u8>,
    pub answer: Option<SocketAddrView>,
}

/// Where data is sent, and the data.
#[verifier::ext_equal]
pub struct Sending {
    pub addr: SocketAddrView,
    pub data: Seq<u8>,
}

impl Arrival {
    /// What is sent for the datagram: its data, unchanged, to its own destination, once
    /// that is known. Nothing is sent for a fragment, nor for what cannot be read.
    pub open spec fn sending(self) -> Option<Sending> {
        match udp_request(self.datagram) {
            Ok((frag, target, data)) => if frag != 0 {
                None
            } else {
                match (target, self.answer) {
                    (TargetView::Ip(addr), None) => Some(
                        Sending { addr: addr.over_ipv6(), data },
                    ),
                    (TargetView::Domain(..), Some(addr)) => Some(
                        Sending { addr: addr.over_ipv6(), data },
                    ),
                    _ => None,
                }
            },
            Err(_) => None,
        }
    }

    /// The datagram is a fragment.
    pub open spec fn fragment(self) -> bool {
        udp_request(self.datagram) matches Ok((frag, target, data)) && frag != 0
    }
}

/// The datagrams that came in, in their order.
pub open spec fn arrivals(events: Seq<UdpEventView>) -> Seq<Arrival>
    decreases events.len(),
{
    if events.len() == 0 {
        Seq::empty()
    } else {
        let before = arrivals(events.drop_last());
        match events.last() {
            UdpEventView::Received(datagram) => before.push(Arrival { datagram, answer: None }),
            UdpEventView::Resolved(addr) => before.drop_last().push(
                Arrival { answer: Some(addr), ..before.last() },
            ),
            _ => before,
        }
    }
}

/// What was sent, in its order.
pub open spec fn sendings(events: Seq<UdpEventView>) -> Seq<Sending>
    decreases events.len(),
{
    if events.len() == 0 {
        Seq::empty()
    } else {
        let before = sendings(events.drop_last());
        match (progress(events.drop_last()), events.last()) {
            (
                UdpProgressView::Pending(UdpRelayView::Sending { addr, data }),
                UdpEventView::Sent,
            ) => before.push(Sending { addr, data }),
            _ => before,
        }
    }
}

/// Each datagram gives one sending, and the sendings come in the order of the datagrams:
/// the `i`-th of them is what is sent for the `i`-th datagram. Only the last datagram may
/// have given none yet: it is being resolved, or sent, under its own destination; or the
/// relay is over with it.
///
/// The relay finishes at a fragment. It fails over a datagram that cannot be read, and over
/// an action that failed, with that error.
pub proof fn datagrams_sent_in_order(events: Seq<UdpEventView>)
    requires
        run(events),
    ensures
        sendings(events).len() <= arrivals(events).len() <= sendings(events).len() + 1,
        forall|i: int|
            0 <= i < sendings(events).len() ==> (#[trigger] arrivals(events)[i]).sending() == Some(
                sendings(events)[i],
            ),
        match progress(events) {
            UdpProgressView::Pending(UdpRelayView::Receiving) => arrivals(events).len()
                == sendings(events).len(),
            UdpProgressView::Pending(UdpRelayView::Resolving { name, port, data }) => {
                &&& arrivals(events).len() == sendings(events).len() + 1
                &&& arrivals(events).last().answer is None
                &&& udp_request(arrivals(events).last().datagram) == Ok::<
                    (u8, TargetView, Seq<u8>),
                    ErrorView,
                >((0u8, TargetView::Domain(name, port), data))
            },
            UdpProgressView::Pending(UdpRelayView::Sending { addr, data }) => {
                &&& arrivals(events).len() == sendings(events).len() + 1
                &&& arrivals(events).last().sending() == Some(Sending { addr, data })
            },
            UdpProgressView::Finished => {
                &&& arrivals(events).len() == sendings(events).len() + 1
                &&& arrivals(events).last().fragment()
            },
            UdpProgressView::Failed(e) => {
                ||| events.last() matches UdpEventView::Failed(fault) && e == fault.error()
                ||| {
                    &&& arrivals(events).len() == sendings(events).len() + 1
                    &&& udp_request(arrivals(events).last().datagram) == Err::<
                        (u8, TargetView, Seq<u8>),
                        ErrorView,
                    >(e)
                }
            },
        },
    decreases events.len(),
{
    if events.len() > 0 {
        datagrams_sent_in_order(events.drop_last());
    }
}

/// Once the relay is over nothing is done any more, and nothing sent.
pub proof fn relay_over(events: Seq<UdpEventView>, k: int)
    requires
        run(events),
        0 <= k < events.len(),
    ensures
        progress(events.take(k)) is Pending,
    decreases events.len(),
{
    assert(events.take(k) =~= events.drop_last().take(k));
    if k == events.len() - 1 {
        assert(events.drop_last().take(k) =~= events.drop_last());
    } else {
        relay_over(events.drop_last(), k);
    }
}

/// A client's datagrams are all sent, as long as none of them is a fragment or cannot be
/// read, its domain name is found, and the sockets do their part. The relay then waits for
/// the next one.
pub proof fn whole_datagrams_sent(given: Seq<Arrival>)
    requires
        forall|i: int| 0 <= i < given.len() ==> (#[trigger] given[i]).sending() is Some,
        forall|i: int|
            0 <= i < given.len() ==> ((#[trigger] given[i]).answer matches Some(addr)
                ==> addr.wf()),
    ensures
        exists|events: Seq<UdpEventView>|
            {
                &&& #[trigger] run(events)
                &&& progress(events) == UdpProgressView::Pending(UdpRelayView::Receiving)
                &&& arrivals(events) == given
                &&& sendings(events).len() == given.len()
                &&& forall|i: int|
                    0 <= i < given.len() ==> (#[trigger] given[i]).sending() == Some(
                        sendings(events)[i],
                    )
            },
    decreases given.len(),
{
    if given.len() == 0 {
        let events: Seq<UdpEventView> = Seq::empty();
        assert(arrivals(events) =~= given);
        assert(run(events));
    } else {
        let last = given.last();
        assert forall|i: int| 0 <= i < given.drop_last().len() implies (
        #[trigger] given.drop_last()[i]).sending() is Some by {
            assert(given[i].sending() is Some);
        }
        assert forall|i: int| 0 <= i < given.drop_last().len() implies ((
        #[trigger] given.drop_last()[i]).answer matches Some(addr) ==> addr.wf()) by {
            assert(given[i] == given.drop_last()[i]);
        }
        whole_datagrams_sent(given.drop_last());
        let before = choose|events: Seq<UdpEventView>|
            {
                &&& #[trigger] run(events)
                &&& progress(events) == UdpProgressView::Pending(UdpRelayView::Receiving)
                &&& arrivals(events) == given.drop_last()
                &&& sendings(events).len() == given.drop_last().len()
            };
        assert(given[given.len() - 1].sending() is Some);
        let came = before.push(UdpEventView::Received(last.datagram));
        assert(came.drop_last() =~= before);
        let ready = match last.answer {
            Some(addr) => came.push(UdpEventView::Resolved(addr)),
            None => came,
        };
        if last.answer is Some {
            assert(ready.drop_last() =~= came);
        }
        let events = ready.push(UdpEventView::Sent);
        assert(events.drop_last() =~= ready);
        assert(run(came));
        assert(run(ready));
        assert(arrivals(came).drop_last() =~= given.drop_last());
        assert(arrivals(ready) =~= given);
        datagrams_sent_in_order(events);
        assert(run(events));
    }
}

} // verus!
