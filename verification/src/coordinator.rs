//! The coordinator: the central state machine that merges the local edge
//! signal, the inbound wireless frames and the heartbeat timer into one
//! ordered, non-overlapping sequence of decisions.

use vstd::prelude::*;
use crate::button_event::{ButtonEvent, decoding, encoding};
use crate::registry::{
    broadcast_address_bytes, fixed_peer_address_bytes, spec_register, PeerAddress, PeerRegistry,
    RegistryError, REGISTRY_CAPACITY,
};

verus! {

/// Milliseconds the motor is pulsed when an alert arrives from a peer.
pub const PULSE_MILLIS: u64 = 1000;

/// One received wireless message: who sent it, which address it was sent
/// to, and its payload. Consumed entirely within one coordinator
/// iteration.
pub struct InboundFrame {
    pub src: PeerAddress,
    pub dst: PeerAddress,
    pub payload: Vec<u8>,
}

/// The mathematical content of an inbound frame.
pub struct FrameView {
    pub src: Seq<u8>,
    pub dst: Seq<u8>,
    pub payload: Seq<u8>,
}

impl View for InboundFrame {
    type V = FrameView;

    open spec fn view(&self) -> FrameView {
        FrameView { src: self.src@, dst: self.dst@, payload: self.payload@ }
    }
}

/// One occurrence for the coordinator to handle: whichever of the raced
/// wait sources became ready first in this iteration.
pub enum CoordinatorEvent {
    /// The edge signal yielded a pending button event.
    Edge { event: ButtonEvent },
    /// The transport delivered an inbound frame.
    Inbound { frame: InboundFrame },
    /// The heartbeat timer expired.
    Heartbeat,
}

/// The mathematical content of a coordinator event.
pub enum EventView {
    Edge { event: ButtonEvent },
    Inbound { frame: FrameView },
    Heartbeat,
}

impl View for CoordinatorEvent {
    type V = EventView;

    open spec fn view(&self) -> EventView {
        match self {
            CoordinatorEvent::Edge { event } => EventView::Edge { event: *event },
            CoordinatorEvent::Inbound { frame } => EventView::Inbound { frame: frame@ },
            CoordinatorEvent::Heartbeat => EventView::Heartbeat,
        }
    }
}

/// One decision of the coordinator, for the embedding program to carry
/// out. The actions of one event are carried out in the order given,
/// each completed before the next begins.
#[derive(Debug)]
pub enum Action {
    /// Transmit the payload to the destination address. A failed
    /// transmission is logged by the embedding program and never retried.
    Send { dst: PeerAddress, payload: Vec<u8> },
    /// Pulse the vibration motor for the given number of milliseconds.
    Pulse { millis: u64 },
    /// Surface an operational error to the operator's log.
    Report { error: RegistryError },
}

/// The mathematical content of an action.
pub enum ActionView {
    Send { dst: Seq<u8>, payload: Seq<u8> },
    Pulse { millis: u64 },
    Report { error: RegistryError },
}

impl View for Action {
    type V = ActionView;

    open spec fn view(&self) -> ActionView {
        match self {
            Action::Send { dst, payload } => ActionView::Send { dst: dst@, payload: payload@ },
            Action::Pulse { millis } => ActionView::Pulse { millis: *millis },
            Action::Report { error } => ActionView::Report { error: *error },
        }
    }
}

/// The views of a sequence of actions.
pub open spec fn actions_view(actions: Seq<Action>) -> Seq<ActionView> {
    actions.map_values(|a: Action| a@)
}

/// The operating mode the device was built for.
#[derive(Clone, Copy, Debug, PartialEq, Eq, Structural)]
pub enum OperatingMode {
    /// Discover peers from broadcast traffic: alerts go to the broadcast
    /// address and a newly registered sender is acknowledged.
    Discovery,
    /// No discovery: alerts go to the single well-known peer address and
    /// newly registered senders are not acknowledged.
    FixedPeer,
}

/// Where an alert is transmitted in each operating mode.
pub open spec fn alert_destination(mode: OperatingMode) -> Seq<u8> {
    match mode {
        OperatingMode::Discovery => broadcast_address_bytes(),
        OperatingMode::FixedPeer => fixed_peer_address_bytes(),
    }
}

/// The fixed discovery acknowledgement payload: the ASCII bytes
/// `Hello Peer`.
pub open spec fn hello_payload() -> Seq<u8> {
    seq![72u8, 101u8, 108u8, 108u8, 111u8, 32u8, 80u8, 101u8, 101u8, 114u8]
}

/// The fixed liveness probe payload: the ASCII bytes `0123456789`.
pub open spec fn heartbeat_payload() -> Seq<u8> {
    seq![48u8, 49u8, 50u8, 51u8, 52u8, 53u8, 54u8, 55u8, 56u8, 57u8]
}

/// The discovery acknowledgement payload as bytes for transmission.
pub fn hello_payload_bytes() -> (r: Vec<u8>)
    ensures
        r@ == hello_payload(),
{
    let mut v: Vec<u8> = Vec::new();
    v.push(72u8);
    v.push(101u8);
    v.push(108u8);
    v.push(108u8);
    v.push(111u8);
    v.push(32u8);
    v.push(80u8);
    v.push(101u8);
    v.push(101u8);
    v.push(114u8);
    proof {
        assert(v@ =~= hello_payload());
    }
    v
}

/// The liveness probe payload as bytes for transmission.
pub fn heartbeat_payload_bytes() -> (r: Vec<u8>)
    ensures
        r@ == heartbeat_payload(),
{
    let mut v: Vec<u8> = Vec::new();
    v.push(48u8);
    v.push(49u8);
    v.push(50u8);
    v.push(51u8);
    v.push(52u8);
    v.push(53u8);
    v.push(54u8);
    v.push(55u8);
    v.push(56u8);
    v.push(57u8);
    proof {
        assert(v@ =~= heartbeat_payload());
    }
    v
}

/// The coordinator's decision function: from the known peers, the
/// operating mode and one event, the peers afterwards and the actions
/// the event calls for, in order.
///
/// A `Panic` edge is encoded and transmitted to the mode's alert
/// destination; a quiet edge calls for nothing. An inbound frame is
/// decoded leniently: a `Panic` payload calls for one motor pulse, and a
/// frame addressed to the broadcast address from an unknown sender
/// registers that sender — acknowledged in the discovery mode, reported
/// instead when the registry is full. A heartbeat calls for the fixed
/// liveness probe to the broadcast address.
pub open spec fn spec_step(peers: Seq<Seq<u8>>, mode: OperatingMode, event: EventView) -> (Seq<
    Seq<u8>,
>, Seq<ActionView>) {
    match event {
        EventView::Edge { event } => {
            if event is Panic {
                (
                    peers,
                    seq![
                        ActionView::Send {
                            dst: alert_destination(mode),
                            payload: encoding(ButtonEvent::Panic),
                        },
                    ],
                )
            } else {
                (peers, Seq::<ActionView>::empty())
            }
        },
        EventView::Inbound { frame } => {
            let pulse: Seq<ActionView> = if decoding(frame.payload) is Panic {
                seq![ActionView::Pulse { millis: PULSE_MILLIS }]
            } else {
                Seq::<ActionView>::empty()
            };
            if frame.dst == broadcast_address_bytes() && !peers.contains(frame.src) {
                if peers.len() < REGISTRY_CAPACITY {
                    let ack: Seq<ActionView> = if mode is Discovery {
                        seq![ActionView::Send { dst: frame.src, payload: hello_payload() }]
                    } else {
                        Seq::<ActionView>::empty()
                    };
                    (spec_register(peers, frame.src), pulse + ack)
                } else {
                    (
                        peers,
                        pulse + seq![
                            ActionView::Report { error: RegistryError::CapacityExceeded },
                        ],
                    )
                }
            } else {
                (peers, pulse)
            }
        },
        EventView::Heartbeat => {
            (
                peers,
                seq![
                    ActionView::Send {
                        dst: broadcast_address_bytes(),
                        payload: heartbeat_payload(),
                    },
                ],
            )
        },
    }
}

/// The central state machine. It owns the peer registry; the embedding
/// program owns the raced wait sources and hands the coordinator one
/// event per iteration, then carries out the returned actions in order.
pub struct Coordinator {
    registry: PeerRegistry,
    mode: OperatingMode,
}

impl Coordinator {
    /// The addresses of the peers known so far, in order of registration.
    pub closed spec fn peers(&self) -> Seq<Seq<u8>> {
        self.registry@
    }

    /// The operating mode, fixed at construction.
    pub closed spec fn mode(&self) -> OperatingMode {
        self.mode
    }

    /// The registry is well formed: each peer at most once, within the
    /// fixed capacity.
    pub open spec fn wf(&self) -> bool {
        &&& self.peers().len() <= REGISTRY_CAPACITY
        &&& forall|i: int, j: int|
            0 <= i < j < self.peers().len() ==> self.peers()[i] != self.peers()[j]
    }

    /// A coordinator for the given operating mode, with no peers known:
    /// the registry resets on boot.
    pub fn new(mode: OperatingMode) -> (r: Coordinator)
        ensures
            r.wf(),
            r.peers() == Seq::<Seq<u8>>::empty(),
            r.mode() == mode,
    {
        Coordinator { registry: PeerRegistry::new(), mode }
    }

    /// The peer registry, for inspection.
    pub fn known_peers(&self) -> (r: &PeerRegistry)
        ensures
            r@ == self.peers(),
    {
        &self.registry
    }

    /// Handle one event: update the known peers and return the actions
    /// the event calls for, exactly as the decision function says.
    pub fn step(&mut self, event: CoordinatorEvent) -> (actions: Vec<Action>)
        requires
            old(self).wf(),
        ensures
            final(self).wf(),
            final(self).mode() == old(self).mode(),
            (final(self).peers(), actions_view(actions@)) == spec_step(
                old(self).peers(),
                old(self).mode(),
                event@,
            ),
    {
        match event {
            CoordinatorEvent::Edge { event } => {
                let mut actions: Vec<Action> = Vec::new();
                match event {
                    ButtonEvent::NoEvent => {},
                    ButtonEvent::Panic => {
                        let dst = match self.mode {
                            OperatingMode::Discovery => PeerAddress::broadcast(),
                            OperatingMode::FixedPeer => PeerAddress::fixed_peer(),
                        };
                        let payload = event.to_bstring();
                        actions.push(Action::Send { dst, payload });
                    },
                }
                proof {
                    assert(actions_view(actions@) =~= spec_step(
                        old(self).peers(),
                        old(self).mode(),
                        CoordinatorEvent::Edge { event }@,
                    ).1);
                }
                actions
            },
            CoordinatorEvent::Inbound { frame } => {
                let mut actions: Vec<Action> = Vec::new();
                let decoded = ButtonEvent::from_bstring(frame.payload.as_slice());
                match decoded {
                    ButtonEvent::Panic => {
                        actions.push(Action::Pulse { millis: PULSE_MILLIS });
                    },
                    ButtonEvent::NoEvent => {},
                }
                if frame.dst.is_broadcast() && !self.registry.contains(&frame.src) {
                    match self.registry.register(&frame.src) {
                        Ok(_) => {
                            match self.mode {
                                OperatingMode::Discovery => {
                                    let payload = hello_payload_bytes();
                                    actions.push(
                                        Action::Send { dst: frame.src, payload },
                                    );
                                },
                                OperatingMode::FixedPeer => {},
                            }
                        },
                        Err(error) => {
                            actions.push(Action::Report { error });
                        },
                    }
                }
                proof {
                    assert(actions_view(actions@) =~= spec_step(
                        old(self).peers(),
                        old(self).mode(),
                        EventView::Inbound { frame: frame@ },
                    ).1);
                }
                actions
            },
            CoordinatorEvent::Heartbeat => {
                let mut actions: Vec<Action> = Vec::new();
                let payload = heartbeat_payload_bytes();
                actions.push(Action::Send { dst: PeerAddress::broadcast(), payload });
                proof {
                    assert(actions_view(actions@) =~= spec_step(
                        old(self).peers(),
                        old(self).mode(),
                        EventView::Heartbeat,
                    ).1);
                }
                actions
            },
        }
    }
}

/// Coordinator non-overlap: no event ever calls for more than one motor
/// pulse, and the embedding program carries out the actions of one event
/// in order, each pulse blocking it until the pulse ends — so no two
/// pulses triggered by the coordinator overlap in time.
pub proof fn lemma_step_at_most_one_pulse(
    peers: Seq<Seq<u8>>,
    mode: OperatingMode,
    event: EventView,
)
    ensures
        forall|i: int, j: int|
            0 <= i < j < spec_step(peers, mode, event).1.len() ==> !(spec_step(
                peers,
                mode,
                event,
            ).1[i] is Pulse && spec_step(peers, mode, event).1[j] is Pulse),
{
}

} // verus!
