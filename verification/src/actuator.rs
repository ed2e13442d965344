//! The actuator controller: one motor pulse of a caller-chosen duration,
//! with the output guaranteed low on every exit path.

use vstd::prelude::*;

verus! {

/// The controller of the digital output that drives the vibration motor.
///
/// The embedding program mirrors every level change onto the physical
/// pin. A pulse suspends between raising and lowering the line, so it is
/// split around that suspension point into `begin` and `finish`; the
/// program must route every exit of a pulse — normal expiry of the
/// duration as well as abandonment at the suspension point — through
/// `finish`, which it does with a guard that runs on both paths. The
/// motor can therefore never be left running by a partial failure.
pub struct ActuatorController {
    driving: bool,
}

impl ActuatorController {
    /// Whether the output is currently driven high.
    pub closed spec fn is_high(&self) -> bool {
        self.driving
    }

    /// The level the output is currently driven at: true is high, the
    /// motor running.
    pub fn output_high(&self) -> (r: bool)
        ensures
            r == self.is_high(),
    {
        self.driving
    }

    /// A fresh controller: the output starts low.
    pub fn new() -> (r: ActuatorController)
        ensures
            !r.is_high(),
    {
        ActuatorController { driving: false }
    }

    /// Begin a pulse: drive the output high. The coordinator is single
    /// threaded and a pulse blocks it, so pulses never overlap: a pulse
    /// may begin only while the output is low.
    pub fn begin(&mut self)
        requires
            !old(self).is_high(),
        ensures
            final(self).is_high(),
    {
        self.driving = true;
    }

    /// End a pulse: drive the output low. Callable in any state, on every
    /// exit path of a pulse, and the output is low after it whatever
    /// state the pulse was abandoned in.
    pub fn finish(&mut self)
        ensures
            !final(self).is_high(),
    {
        self.driving = false;
    }
}

} // verus!
