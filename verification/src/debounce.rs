//! The debounce sampler: a periodic comparison of consecutive samples of
//! a noisy digital input, emitting at most one logical edge event per
//! press/release cycle.

use vstd::prelude::*;
use crate::button_event::ButtonEvent;

verus! {

/// The sampler's private phase: released, or pressed since a recorded
/// instant of the caller's clock. The instant is diagnostic only — no
/// minimum hold time is enforced before an alert is emitted.
#[derive(Clone, Copy, Debug, PartialEq, Eq, Structural)]
pub enum ButtonPhase {
    Released,
    Pressed { since: u64 },
}

/// What one sample does: the next phase and the event to publish, given
/// the phase before, the sampled level (true = high, the button is down)
/// and the current instant. A rising edge records the instant, a falling
/// edge emits `Panic`, a stable level does nothing.
pub open spec fn spec_sample(phase: ButtonPhase, level: bool, now: u64) -> (ButtonPhase, Option<
    ButtonEvent,
>) {
    match phase {
        ButtonPhase::Released => {
            if level {
                (ButtonPhase::Pressed { since: now }, None)
            } else {
                (ButtonPhase::Released, None)
            }
        },
        ButtonPhase::Pressed { since } => {
            if !level {
                (ButtonPhase::Released, Some(ButtonEvent::Panic))
            } else {
                (ButtonPhase::Pressed { since }, None)
            }
        },
    }
}

/// The phase reached and the number of events emitted by a run of
/// samples, each a sampled level with the instant it was taken.
pub open spec fn spec_run(phase: ButtonPhase, samples: Seq<(bool, u64)>) -> (ButtonPhase, nat)
    decreases samples.len(),
{
    if samples.len() == 0 {
        (phase, 0)
    } else {
        let first = spec_sample(phase, samples[0].0, samples[0].1);
        let rest = spec_run(first.0, samples.drop_first());
        (rest.0, rest.1 + (if first.1 is Some {
            1nat
        } else {
            0nat
        }))
    }
}

/// The debounce sampler. The embedding program runs it as an independent
/// activity that reads the input level on a fixed period (1 ms on the
/// device) and hands each sample to `sample`, publishing any emitted
/// event into the shared `EdgeSignal`.
pub struct DebounceSampler {
    phase: ButtonPhase,
}

impl DebounceSampler {
    /// The current phase.
    pub closed spec fn phase(&self) -> ButtonPhase {
        self.phase
    }

    /// A fresh sampler: the button starts released.
    pub fn new() -> (r: DebounceSampler)
        ensures
            r.phase() == ButtonPhase::Released,
    {
        DebounceSampler { phase: ButtonPhase::Released }
    }

    /// Feed one sample: the level read from the input and the instant it
    /// was read. Returns the event to publish, if this sample completed a
    /// press/release cycle.
    pub fn sample(&mut self, level: bool, now: u64) -> (e: Option<ButtonEvent>)
        ensures
            (final(self).phase(), e) == spec_sample(old(self).phase(), level, now),
    {
        match self.phase {
            ButtonPhase::Released => {
                if level {
                    self.phase = ButtonPhase::Pressed { since: now };
                }
                None
            },
            ButtonPhase::Pressed { .. } => {
                if !level {
                    self.phase = ButtonPhase::Released;
                    Some(ButtonEvent::Panic)
                } else {
                    None
                }
            },
        }
    }

    /// The instant the current press began, if one is in progress: lets
    /// the embedding program log how long a press lasted.
    pub fn pressed_since(&self) -> (r: Option<u64>)
        ensures
            r == (match self.phase() {
                ButtonPhase::Pressed { since } => Some(since),
                ButtonPhase::Released => None::<u64>,
            }),
    {
        match self.phase {
            ButtonPhase::Pressed { since } => Some(since),
            ButtonPhase::Released => None,
        }
    }
}

proof fn lemma_pressed_run(phase: ButtonPhase, samples: Seq<(bool, u64)>)
    requires
        phase is Pressed,
        samples.len() >= 1,
        forall|i: int| 0 <= i < samples.len() - 1 ==> samples[i].0 == true,
        samples[samples.len() - 1].0 == false,
    ensures
        spec_run(phase, samples) == (ButtonPhase::Released, 1nat),
    decreases samples.len(),
{
    let first = spec_sample(phase, samples[0].0, samples[0].1);
    if samples.len() == 1 {
        assert(spec_run(first.0, samples.drop_first()) == (ButtonPhase::Released, 0nat));
    } else {
        assert(samples[0].0 == true);
        assert(first.0 == phase);
        let rest = samples.drop_first();
        assert(rest[rest.len() - 1].0 == false);
        assert(forall|i: int| 0 <= i < rest.len() - 1 ==> rest[i].0 == true);
        lemma_pressed_run(phase, rest);
    }
}

/// Debounce single edge: a clean press-then-release — some positive
/// number of consecutive high samples followed by one low sample, seen
/// from the released phase — emits exactly one event, however many
/// sampling periods the press was held, and leaves the sampler released.
pub proof fn lemma_debounce_single_edge(samples: Seq<(bool, u64)>, held: int)
    requires
        1 <= held,
        samples.len() == held + 1,
        forall|i: int| 0 <= i < held ==> samples[i].0 == true,
        samples[held].0 == false,
    ensures
        spec_run(ButtonPhase::Released, samples) == (ButtonPhase::Released, 1nat),
{
    let first = spec_sample(ButtonPhase::Released, samples[0].0, samples[0].1);
    assert(samples[0].0 == true);
    let rest = samples.drop_first();
    assert(rest[rest.len() - 1].0 == false);
    assert(forall|i: int| 0 <= i < rest.len() - 1 ==> rest[i].0 == true);
    lemma_pressed_run(first.0, rest);
}

} // verus!
