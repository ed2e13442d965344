//! The peer registry: which remote addresses are known, with idempotent
//! registration and a fixed capacity.

use vstd::prelude::*;

verus! {

/// A fixed-width six-byte hardware identifier of a device on the wireless
/// link. Addresses are compared and copied by value, never mutated.
#[derive(Clone, Copy, Debug)]
pub struct PeerAddress {
    pub bytes: [u8; 6],
}

impl View for PeerAddress {
    type V = Seq<u8>;

    open spec fn view(&self) -> Seq<u8> {
        self.bytes@
    }
}

impl PartialEq for PeerAddress {
    fn eq(&self, other: &PeerAddress) -> (r: bool) {
        let r = self.bytes[0] == other.bytes[0] && self.bytes[1] == other.bytes[1]
            && self.bytes[2] == other.bytes[2] && self.bytes[3] == other.bytes[3]
            && self.bytes[4] == other.bytes[4] && self.bytes[5] == other.bytes[5];
        proof {
            if r {
                assert(self.bytes@ =~= other.bytes@);
            }
        }
        r
    }
}

impl vstd::std_specs::cmp::PartialEqSpecImpl for PeerAddress {
    open spec fn obeys_eq_spec() -> bool {
        true
    }

    open spec fn eq_spec(&self, other: &PeerAddress) -> bool {
        self@ == other@
    }
}

/// The reserved destination received by every device in range: six bytes
/// of `0xFF`.
pub open spec fn broadcast_address_bytes() -> Seq<u8> {
    seq![255u8, 255u8, 255u8, 255u8, 255u8, 255u8]
}

/// The single well-known peer address used in the operating mode that
/// replaces broadcast discovery: six bytes of `0x88`.
pub open spec fn fixed_peer_address_bytes() -> Seq<u8> {
    seq![136u8, 136u8, 136u8, 136u8, 136u8, 136u8]
}

impl PeerAddress {
    /// The broadcast address.
    pub fn broadcast() -> (r: PeerAddress)
        ensures
            r@ == broadcast_address_bytes(),
    {
        let r = PeerAddress { bytes: [255u8, 255u8, 255u8, 255u8, 255u8, 255u8] };
        proof {
            assert(r@ =~= broadcast_address_bytes());
        }
        r
    }

    /// The well-known fixed peer address.
    pub fn fixed_peer() -> (r: PeerAddress)
        ensures
            r@ == fixed_peer_address_bytes(),
    {
        let r = PeerAddress { bytes: [136u8, 136u8, 136u8, 136u8, 136u8, 136u8] };
        proof {
            assert(r@ =~= fixed_peer_address_bytes());
        }
        r
    }

    /// Whether this address is the broadcast address.
    pub fn is_broadcast(&self) -> (r: bool)
        ensures
            r == (self@ == broadcast_address_bytes()),
    {
        let b = PeerAddress::broadcast();
        *self == b
    }
}

/// How many peers the registry can hold: sized for the single-digit peer
/// count expected of this device class.
pub const REGISTRY_CAPACITY: usize = 8;

/// The error a full registry reports instead of silently dropping a new
/// address.
#[derive(Clone, Copy, Debug, PartialEq, Eq, Structural)]
pub enum RegistryError {
    CapacityExceeded,
}

/// What one registration does to the registry's contents: a no-op when
/// the address is already present or the registry is full, an append
/// otherwise.
pub open spec fn spec_register(peers: Seq<Seq<u8>>, a: Seq<u8>) -> Seq<Seq<u8>> {
    if peers.contains(a) {
        peers
    } else if peers.len() < REGISTRY_CAPACITY {
        peers.push(a)
    } else {
        peers
    }
}

/// The set of known remote addresses, owned by the coordinator. An
/// address is present at most once; the storage is a fixed-capacity
/// sequence and entries are never pruned.
pub struct PeerRegistry {
    peers: Vec<PeerAddress>,
}

impl View for PeerRegistry {
    type V = Seq<Seq<u8>>;

    closed spec fn view(&self) -> Seq<Seq<u8>> {
        self.peers@.map_values(|p: PeerAddress| p@)
    }
}

impl PeerRegistry {
    /// Every address is present at most once, and the fixed capacity is
    /// respected.
    pub open spec fn wf(&self) -> bool {
        &&& self@.len() <= REGISTRY_CAPACITY
        &&& forall|i: int, j: int| 0 <= i < j < self@.len() ==> self@[i] != self@[j]
    }

    /// An empty registry: the device boots with no peers known.
    pub fn new() -> (r: PeerRegistry)
        ensures
            r.wf(),
            r@ == Seq::<Seq<u8>>::empty(),
    {
        let r = PeerRegistry { peers: Vec::new() };
        proof {
            assert(r@ =~= Seq::<Seq<u8>>::empty());
        }
        r
    }

    /// How many peers are known.
    pub fn len(&self) -> (n: usize)
        ensures
            n == self@.len(),
    {
        self.peers.len()
    }

    /// Whether the given address is already registered.
    pub fn contains(&self, a: &PeerAddress) -> (r: bool)
        ensures
            r == self@.contains(a@),
    {
        let n = self.peers.len();
        let mut i: usize = 0;
        while i < n
            invariant
                0 <= i <= n,
                n == self@.len(),
                forall|j: int| 0 <= j < i ==> self@[j] != a@,
            decreases n - i,
        {
            if self.peers[i] == *a {
                proof {
                    assert(self@[i as int] == a@);
                }
                return true;
            }
            i += 1;
        }
        proof {
            assert(!self@.contains(a@));
        }
        false
    }

    /// The address at the given position, in order of registration.
    pub fn peer_at(&self, i: usize) -> (r: PeerAddress)
        requires
            i < self@.len(),
        ensures
            r@ == self@[i as int],
    {
        self.peers[i]
    }

    /// Register an address. Registering an address that is already known
    /// is a no-op reported as `Ok(false)`; a new address is appended and
    /// reported as `Ok(true)`; a new address that does not fit is
    /// reported as an error and the registry is left unchanged.
    pub fn register(&mut self, a: &PeerAddress) -> (r: Result<bool, RegistryError>)
        requires
            old(self).wf(),
        ensures
            final(self).wf(),
            final(self)@ == spec_register(old(self)@, a@),
            r == (if old(self)@.contains(a@) {
                Ok::<bool, RegistryError>(false)
            } else if old(self)@.len() < REGISTRY_CAPACITY {
                Ok::<bool, RegistryError>(true)
            } else {
                Err::<bool, RegistryError>(RegistryError::CapacityExceeded)
            }),
    {
        if self.contains(a) {
            Ok(false)
        } else if self.peers.len() < REGISTRY_CAPACITY {
            self.peers.push(*a);
            proof {
                assert(self@ =~= spec_register(old(self)@, a@));
            }
            Ok(true)
        } else {
            Err(RegistryError::CapacityExceeded)
        }
    }
}

/// Peers are never pruned: a registration keeps every address already
/// present, each in its position, and can do no more than append.
pub proof fn lemma_register_never_prunes(peers: Seq<Seq<u8>>, a: Seq<u8>)
    ensures
        spec_register(peers, a).len() >= peers.len(),
        forall|i: int| 0 <= i < peers.len() ==> spec_register(peers, a)[i] == peers[i],
{
}

/// Registry idempotence: registering the same address twice leaves the
/// registry's contents — and with them its membership and its size —
/// exactly as a single registration does.
pub proof fn lemma_register_idempotent(peers: Seq<Seq<u8>>, a: Seq<u8>)
    ensures
        spec_register(spec_register(peers, a), a) == spec_register(peers, a),
{
    let once = spec_register(peers, a);
    if !peers.contains(a) && peers.len() < REGISTRY_CAPACITY {
        assert(once[once.len() - 1] == a);
        assert(once.contains(a));
    }
}

} // verus!
