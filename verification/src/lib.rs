//! Event-coordination core of a wearable panic pendant.
//!
//! The device debounces a physical button, broadcasts an alert payload to
//! peer devices over a short-range wireless link, and drives a vibration
//! motor when an alert arrives from a peer. This crate holds the verified
//! core: the wire codec, the peer registry, the single-slot edge signal,
//! the debounce sampler's state machine, the actuator controller's state
//! machine, and the coordinator that merges the event sources into one
//! ordered sequence of decisions. The hardware, the radio and the async
//! executor live outside this crate and drive these state machines.

pub mod actuator;
pub mod button_event;
pub mod coordinator;
pub mod debounce;
pub mod edge_signal;
pub mod registry;
