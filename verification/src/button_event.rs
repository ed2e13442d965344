//! The wire codec: the domain event type and its byte payload contract.

use vstd::prelude::*;

verus! {

/// The debounced outcome of one press/release cycle of the pendant's
/// button. `Panic` is the alert that is broadcast to peers; `NoEvent` is the
/// quiet outcome, also produced when a received payload is not recognised.
#[derive(Clone, Copy, Debug, PartialEq, Eq, Structural)]
pub enum ButtonEvent {
    NoEvent,
    Panic,
}

/// The five ASCII bytes `PANIC`: the wire payload of an alert.
pub open spec fn panic_payload() -> Seq<u8> {
    seq![80u8, 65u8, 78u8, 73u8, 67u8]
}

/// The canonical byte encoding of an event: a single zero byte for
/// `NoEvent`, the five ASCII bytes `PANIC` for `Panic`.
pub open spec fn encoding(e: ButtonEvent) -> Seq<u8> {
    match e {
        ButtonEvent::NoEvent => seq![0u8],
        ButtonEvent::Panic => panic_payload(),
    }
}

/// The lenient decoding: exactly `PANIC` decodes to `Panic`; every other
/// byte sequence, including the empty one, decodes to `NoEvent`.
pub open spec fn decoding(bytes: Seq<u8>) -> ButtonEvent {
    if bytes == panic_payload() {
        ButtonEvent::Panic
    } else {
        ButtonEvent::NoEvent
    }
}

impl ButtonEvent {
    /// Encode this event as its canonical wire payload.
    pub fn to_bstring(&self) -> (r: Vec<u8>)
        ensures
            r@ == encoding(*self),
    {
        match self {
            ButtonEvent::NoEvent => {
                let mut v: Vec<u8> = Vec::new();
                v.push(0u8);
                proof {
                    assert(v@ =~= encoding(ButtonEvent::NoEvent));
                }
                v
            },
            ButtonEvent::Panic => {
                let mut v: Vec<u8> = Vec::new();
                v.push(80u8);
                v.push(65u8);
                v.push(78u8);
                v.push(73u8);
                v.push(67u8);
                proof {
                    assert(v@ =~= panic_payload());
                }
                v
            },
        }
    }

    /// Decode a received payload. Decoding is total: any payload other
    /// than exactly `PANIC` is treated as the quiet event, never as an
    /// error.
    pub fn from_bstring(bytes: &[u8]) -> (r: ButtonEvent)
        ensures
            r == decoding(bytes@),
    {
        if bytes.len() == 5 && bytes[0] == 80 && bytes[1] == 65 && bytes[2] == 78
            && bytes[3] == 73 && bytes[4] == 67 {
            proof {
                assert(bytes@ =~= panic_payload());
            }
            ButtonEvent::Panic
        } else {
            ButtonEvent::NoEvent
        }
    }
}

/// Codec round trip: decoding the canonical encoding of any event yields
/// that event back.
pub proof fn lemma_codec_round_trip(e: ButtonEvent)
    ensures
        decoding(encoding(e)) == e,
{
    match e {
        ButtonEvent::NoEvent => {
            assert(encoding(e).len() == 1);
            assert(panic_payload().len() == 5);
        },
        ButtonEvent::Panic => {
        },
    }
}

/// Codec leniency: every byte sequence other than exactly `PANIC` decodes
/// to the quiet event.
pub proof fn lemma_decode_lenient(bytes: Seq<u8>)
    requires
        bytes != panic_payload(),
    ensures
        decoding(bytes) == ButtonEvent::NoEvent,
{
}

} // verus!
