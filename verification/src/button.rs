//! The button task: it waits for the button pin to go low, reports it, waits
//! for the pin to go high, reports it, and so on.
use vstd::prelude::*;
use crate::message::{AppEvent, PinState};

verus! {

/// The other pin level.
pub open spec fn opposite(level: PinState) -> PinState {
    match level {
        PinState::Low => PinState::High,
        PinState::High => PinState::Low,
    }
}

/// The level that the button task waits for after `n` reported changes.
pub open spec fn awaited_after(n: nat) -> PinState
    decreases n,
{
    if n == 0 {
        PinState::Low
    } else {
        opposite(awaited_after((n - 1) as nat))
    }
}

/// The `n`-th reported button level (counted from zero) is `Low` when `n` is
/// even and `High` when it is odd: reports start with a press of the
/// (pulled-up) button and then alternate.
pub proof fn lemma_button_reports_alternate(n: nat)
    ensures
        awaited_after(n) == (if n % 2 == 0 { PinState::Low } else { PinState::High }),
        awaited_after(n + 1) != awaited_after(n),
    decreases n,
{
    if n > 0 {
        lemma_button_reports_alternate((n - 1) as nat);
    }
}

/// Which edge of the button pin the task waits for next.
pub struct ButtonMonitor {
    awaiting: PinState,
}

impl ButtonMonitor {
    /// The level that the task waits for next.
    pub closed spec fn awaiting(self) -> PinState {
        self.awaiting
    }

    /// A monitor that first waits for the pin to go low.
    pub fn new() -> (r: Self)
        ensures
            r.awaiting() == awaited_after(0),
    {
        ButtonMonitor { awaiting: PinState::Low }
    }

    /// The level to wait for.
    pub fn awaited_level(&self) -> (r: PinState)
        ensures
            r == self.awaiting(),
    {
        self.awaiting
    }

    /// The pin has reached the awaited level: returns the event to publish and
    /// waits for the other level from now on.
    pub fn on_level_reached(&mut self) -> (event: AppEvent)
        ensures
            event == AppEvent::Button(old(self).awaiting()),
            final(self).awaiting() == opposite(old(self).awaiting()),
    {
        let reached = self.awaiting;
        self.awaiting = match reached {
            PinState::Low => PinState::High,
            PinState::High => PinState::Low,
        };
        AppEvent::Button(reached)
    }
}

} // verus!
