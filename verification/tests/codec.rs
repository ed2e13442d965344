use panic_pendant::button_event::ButtonEvent;

#[test]
fn encode_panic_is_the_ascii_bytes() {
    assert_eq!(ButtonEvent::Panic.to_bstring(), b"PANIC".to_vec());
}

#[test]
fn encode_no_event_is_one_zero_byte() {
    assert_eq!(ButtonEvent::NoEvent.to_bstring(), vec![0u8]);
}

#[test]
fn round_trip_panic() {
    let e = ButtonEvent::Panic;
    assert_eq!(ButtonEvent::from_bstring(&e.to_bstring()), e);
}

#[test]
fn round_trip_no_event() {
    let e = ButtonEvent::NoEvent;
    assert_eq!(ButtonEvent::from_bstring(&e.to_bstring()), e);
}

#[test]
fn decode_exact_panic() {
    assert_eq!(ButtonEvent::from_bstring(b"PANIC"), ButtonEvent::Panic);
}

#[test]
fn decode_garbage_is_no_event() {
    assert_eq!(ButtonEvent::from_bstring(b"garbage"), ButtonEvent::NoEvent);
}

#[test]
fn decode_empty_is_no_event() {
    assert_eq!(ButtonEvent::from_bstring(b""), ButtonEvent::NoEvent);
}

#[test]
fn decode_truncated_is_no_event() {
    assert_eq!(ButtonEvent::from_bstring(b"PANI"), ButtonEvent::NoEvent);
}

#[test]
fn decode_near_miss_is_no_event() {
    assert_eq!(ButtonEvent::from_bstring(b"PANIK"), ButtonEvent::NoEvent);
    assert_eq!(ButtonEvent::from_bstring(b"panic"), ButtonEvent::NoEvent);
    assert_eq!(ButtonEvent::from_bstring(b"PANIC\0"), ButtonEvent::NoEvent);
}
