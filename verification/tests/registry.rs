use panic_pendant::registry::{PeerAddress, PeerRegistry, RegistryError, REGISTRY_CAPACITY};

fn addr(last: u8) -> PeerAddress {
    PeerAddress { bytes: [1, 2, 3, 4, 5, last] }
}

#[test]
fn register_new_address_reports_newly_added() {
    let mut r = PeerRegistry::new();
    assert_eq!(r.register(&addr(9)), Ok(true));
    assert_eq!(r.len(), 1);
    assert!(r.contains(&addr(9)));
}

#[test]
fn register_twice_is_idempotent() {
    let mut once = PeerRegistry::new();
    assert_eq!(once.register(&addr(9)), Ok(true));

    let mut twice = PeerRegistry::new();
    assert_eq!(twice.register(&addr(9)), Ok(true));
    assert_eq!(twice.register(&addr(9)), Ok(false));

    assert_eq!(twice.len(), once.len());
    assert_eq!(twice.contains(&addr(9)), once.contains(&addr(9)));
    assert_eq!(twice.contains(&addr(8)), once.contains(&addr(8)));
}

#[test]
fn empty_registry_contains_nothing() {
    let r = PeerRegistry::new();
    assert_eq!(r.len(), 0);
    assert!(!r.contains(&addr(0)));
}

#[test]
fn capacity_exceeded_is_reported_and_registry_unchanged() {
    let mut r = PeerRegistry::new();
    for i in 0..REGISTRY_CAPACITY {
        assert_eq!(r.register(&addr(i as u8)), Ok(true));
    }
    assert_eq!(r.len(), REGISTRY_CAPACITY);
    assert_eq!(
        r.register(&addr(REGISTRY_CAPACITY as u8)),
        Err(RegistryError::CapacityExceeded)
    );
    assert_eq!(r.len(), REGISTRY_CAPACITY);
    assert!(!r.contains(&addr(REGISTRY_CAPACITY as u8)));
    // A full registry still accepts an address it already knows.
    assert_eq!(r.register(&addr(0)), Ok(false));
}

#[test]
fn well_known_addresses() {
    assert_eq!(PeerAddress::broadcast().bytes, [0xFF; 6]);
    assert_eq!(PeerAddress::fixed_peer().bytes, [0x88; 6]);
    assert!(PeerAddress::broadcast().is_broadcast());
    assert!(!PeerAddress::fixed_peer().is_broadcast());
}

#[test]
fn peers_are_kept_in_order_of_registration() {
    let mut r = PeerRegistry::new();
    assert_eq!(r.register(&addr(3)), Ok(true));
    assert_eq!(r.register(&addr(1)), Ok(true));
    assert_eq!(r.register(&addr(3)), Ok(false));
    assert_eq!(r.peer_at(0), addr(3));
    assert_eq!(r.peer_at(1), addr(1));
    assert_eq!(r.len(), 2);
}
