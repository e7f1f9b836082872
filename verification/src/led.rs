//! The LED indicator task: after 100 ms it drives the LED pin high, after
//! another 1000 ms it drives it low, and so on. Whether a high pin lights the
//! LED depends on the board: the LEDs of the nRF52 DK are active low, so there
//! a high pin switches the LED off.
use vstd::prelude::*;
use crate::button::opposite;
use crate::message::PinState;

verus! {

/// Milliseconds to wait before the LED pin is driven high.
pub const LED_HIGH_DELAY_MS: u64 = 100;

/// Milliseconds to wait before the LED pin is driven low.
pub const LED_LOW_DELAY_MS: u64 = 1000;

/// One step of the indicator: wait `delay_ms`, then drive the LED pin to
/// `level`.
#[derive(Debug, Clone, Copy, PartialEq, Eq, Structural)]
pub struct LedStep {
    pub delay_ms: u64,
    pub level: PinState,
}

/// The step that drives the LED pin to `level`.
pub open spec fn led_step(level: PinState) -> LedStep {
    LedStep {
        delay_ms: if level == PinState::High { LED_HIGH_DELAY_MS } else { LED_LOW_DELAY_MS },
        level,
    }
}

/// Where the indicator stands in its cycle.
pub struct LedBlinker {
    next_level: PinState,
}

/// Any two consecutive steps of the indicator drive the LED pin to opposite
/// levels and together take 1100 ms: the blink period.
pub proof fn lemma_led_period(level: PinState)
    ensures
        led_step(opposite(level)).level != led_step(level).level,
        led_step(level).delay_ms + led_step(opposite(level)).delay_ms == LED_HIGH_DELAY_MS
            + LED_LOW_DELAY_MS,
        led_step(opposite(opposite(level))) == led_step(level),
{
}

impl LedBlinker {
    /// The level that the next step drives the LED pin to.
    pub closed spec fn next_level(self) -> PinState {
        self.next_level
    }

    /// An indicator whose first step drives the LED pin high.
    pub fn new() -> (r: Self)
        ensures
            r.next_level() == PinState::High,
    {
        LedBlinker { next_level: PinState::High }
    }

    /// The next step to perform; the one after it drives the other level.
    pub fn next_step(&mut self) -> (step: LedStep)
        ensures
            step == led_step(old(self).next_level()),
            final(self).next_level() == opposite(old(self).next_level()),
    {
        let level = self.next_level;
        match level {
            PinState::High => {
                self.next_level = PinState::Low;
                LedStep { delay_ms: LED_HIGH_DELAY_MS, level }
            },
            PinState::Low => {
                self.next_level = PinState::High;
                LedStep { delay_ms: LED_LOW_DELAY_MS, level }
            },
        }
    }
}

} // verus!
