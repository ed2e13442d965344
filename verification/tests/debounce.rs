use panic_pendant::button_event::ButtonEvent;
use panic_pendant::debounce::{ButtonPhase, DebounceSampler};
use panic_pendant::edge_signal::EdgeSignal;

#[test]
fn fifty_high_samples_then_low_emit_exactly_one_panic() {
    let mut sampler = DebounceSampler::new();
    let mut emitted = 0;
    for t in 0..50u64 {
        if sampler.sample(true, t).is_some() {
            emitted += 1;
        }
    }
    assert_eq!(sampler.sample(false, 50), Some(ButtonEvent::Panic));
    emitted += 1;
    assert_eq!(emitted, 1);
}

#[test]
fn one_panic_reaches_the_consumer_through_the_signal() {
    let mut sampler = DebounceSampler::new();
    let mut signal = EdgeSignal::new();
    for t in 0..50u64 {
        if let Some(e) = sampler.sample(true, t) {
            signal.write(e);
        }
    }
    if let Some(e) = sampler.sample(false, 50) {
        signal.write(e);
    }
    assert_eq!(signal.take(), Some(ButtonEvent::Panic));
    assert_eq!(signal.take(), None);
}

#[test]
fn stable_low_level_emits_nothing() {
    let mut sampler = DebounceSampler::new();
    for t in 0..10u64 {
        assert_eq!(sampler.sample(false, t), None);
    }
}

#[test]
fn press_records_the_instant_it_began() {
    let mut sampler = DebounceSampler::new();
    assert_eq!(sampler.pressed_since(), None);
    assert_eq!(sampler.sample(true, 17), None);
    assert_eq!(sampler.pressed_since(), Some(17));
    assert_eq!(sampler.sample(true, 18), None);
    assert_eq!(sampler.pressed_since(), Some(17));
}

#[test]
fn a_second_cycle_emits_a_second_event() {
    let mut sampler = DebounceSampler::new();
    assert_eq!(sampler.sample(true, 0), None);
    assert_eq!(sampler.sample(false, 1), Some(ButtonEvent::Panic));
    assert_eq!(sampler.sample(true, 2), None);
    assert_eq!(sampler.sample(false, 3), Some(ButtonEvent::Panic));
}

#[test]
fn phases_compare_by_their_fields() {
    assert_eq!(ButtonPhase::Released, ButtonPhase::Released);
    assert_ne!(
        ButtonPhase::Pressed { since: 1 },
        ButtonPhase::Pressed { since: 2 }
    );
}
