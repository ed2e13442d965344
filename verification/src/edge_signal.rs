//! The single-slot edge signal: the one piece of state shared by the two
//! concurrent activities.

use vstd::prelude::*;
use crate::button_event::ButtonEvent;

verus! {

/// A single-slot mailbox holding at most one pending `ButtonEvent`.
///
/// A write overwrites any unread value — the latest value wins, this is
/// not a queue — and a take clears the slot. The debounce sampler is the
/// sole permitted producer and the coordinator the sole permitted
/// consumer; the program embedding the two activities serialises their
/// accesses (on the device, a short critical section does).
pub struct EdgeSignal {
    slot: Option<ButtonEvent>,
}

impl View for EdgeSignal {
    type V = Option<ButtonEvent>;

    closed spec fn view(&self) -> Option<ButtonEvent> {
        self.slot
    }
}

impl EdgeSignal {
    /// An empty signal: nothing pending.
    pub fn new() -> (r: EdgeSignal)
        ensures
            r@ is None,
    {
        EdgeSignal { slot: None }
    }

    /// Publish an event, overwriting any unread one: after a write the
    /// slot holds exactly the written value, whatever it held before.
    pub fn write(&mut self, e: ButtonEvent)
        ensures
            final(self)@ == Some(e),
    {
        self.slot = Some(e);
    }

    /// Whether an event is pending.
    pub fn is_pending(&self) -> (r: bool)
        ensures
            r == (self@ is Some),
    {
        self.slot.is_some()
    }

    /// Take the pending event, if any, leaving the slot empty. On the
    /// device the consumer suspends while the slot is empty; here the
    /// empty slot is reported as `None` and the caller waits at its own
    /// suspension point before asking again.
    pub fn take(&mut self) -> (r: Option<ButtonEvent>)
        ensures
            r == old(self)@,
            final(self)@ is None,
    {
        let r = self.slot;
        self.slot = None;
        r
    }
}

} // verus!
