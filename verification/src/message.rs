//! Types and functions that pass data between the device's tasks.
use vstd::prelude::*;
use vstd::std_specs::convert::FromSpecImpl;
use crate::frame::{frame_bytes, frame_clone, FRAME_CAPACITY};

verus! {

/// Number of messages that the message bus queues.
pub const QUEUE_SIZE: usize = 3;

/// Maximum number of subscribers of the message bus.
pub const SUBS_SIZE: usize = 5;

/// Maximum number of publishers of the message bus.
pub const PUBS_SIZE: usize = 5;

/// Event types and associated values used in this app.
#[derive(Debug)]
pub enum AppEvent {
    Led(PinState),
    Button(PinState),
    BleBytesWritten(heapless::Vec<u8, FRAME_CAPACITY>),
    UartRxWritten(heapless::Vec<u8, FRAME_CAPACITY>),
}

/// Two events of the same kind that carry the same pin state or the same
/// bytes.
pub open spec fn same_event(a: AppEvent, b: AppEvent) -> bool {
    match (a, b) {
        (AppEvent::Led(x), AppEvent::Led(y)) => x == y,
        (AppEvent::Button(x), AppEvent::Button(y)) => x == y,
        (AppEvent::BleBytesWritten(x), AppEvent::BleBytesWritten(y)) => frame_bytes(x) == frame_bytes(y),
        (AppEvent::UartRxWritten(x), AppEvent::UartRxWritten(y)) => frame_bytes(x) == frame_bytes(y),
        _ => false,
    }
}

/// Two events related by `same_event` carry the same thing: an event with a
/// pin state is equal to the other one, and an event with bytes has the other
/// of the same kind with the same bytes.
pub proof fn lemma_same_event_keeps_payload(a: AppEvent, b: AppEvent)
    requires
        same_event(a, b),
    ensures
        a matches AppEvent::Led(x) ==> b == AppEvent::Led(x),
        a matches AppEvent::Button(x) ==> b == AppEvent::Button(x),
        a matches AppEvent::BleBytesWritten(x) ==> (b matches AppEvent::BleBytesWritten(y)
            && frame_bytes(y) == frame_bytes(x)),
        a matches AppEvent::UartRxWritten(x) ==> (b matches AppEvent::UartRxWritten(y)
            && frame_bytes(y) == frame_bytes(x)),
{
}

/// Every event is `same_event` as itself, and `same_event` is symmetric.
pub proof fn lemma_same_event_reflexive_symmetric(a: AppEvent, b: AppEvent)
    ensures
        same_event(a, a),
        same_event(a, b) == same_event(b, a),
{
}

impl Clone for AppEvent {
    fn clone(&self) -> (r: AppEvent)
        ensures
            same_event(*self, r),
            *self matches AppEvent::Led(x) ==> r == AppEvent::Led(x),
            *self matches AppEvent::Button(x) ==> r == AppEvent::Button(x),
            *self matches AppEvent::BleBytesWritten(x) ==> (r matches AppEvent::BleBytesWritten(y)
                && frame_bytes(y) == frame_bytes(x)),
            *self matches AppEvent::UartRxWritten(x) ==> (r matches AppEvent::UartRxWritten(y)
                && frame_bytes(y) == frame_bytes(x)),
    {
        match self {
            AppEvent::Led(state) => AppEvent::Led(*state),
            AppEvent::Button(state) => AppEvent::Button(*state),
            AppEvent::BleBytesWritten(bytes) => AppEvent::BleBytesWritten(frame_clone(bytes)),
            AppEvent::UartRxWritten(bytes) => AppEvent::UartRxWritten(frame_clone(bytes)),
        }
    }
}

/// GPIO pin state.
#[derive(Clone, Copy, Debug, PartialEq, Eq, Structural)]
pub enum PinState {
    Low,
    High,
}

/// The truth value that a pin state stands for: `High` is `true`.
pub open spec fn pin_state_to_bool(val: PinState) -> bool {
    val == PinState::High
}

/// The pin state that a truth value stands for: `true` is `High`.
pub open spec fn bool_to_pin_state(value: bool) -> PinState {
    if value {
        PinState::High
    } else {
        PinState::Low
    }
}

impl From<PinState> for bool {
    fn from(val: PinState) -> (r: bool) {
        match val {
            PinState::High => true,
            PinState::Low => false,
        }
    }
}

impl FromSpecImpl<PinState> for bool {
    open spec fn obeys_from_spec() -> bool {
        true
    }

    open spec fn from_spec(val: PinState) -> bool {
        pin_state_to_bool(val)
    }
}

impl From<bool> for PinState {
    fn from(value: bool) -> (r: PinState) {
        if value {
            PinState::High
        } else {
            PinState::Low
        }
    }
}

impl FromSpecImpl<bool> for PinState {
    open spec fn obeys_from_spec() -> bool {
        true
    }

    open spec fn from_spec(value: bool) -> PinState {
        bool_to_pin_state(value)
    }
}

/// Converting a pin state to a truth value and back gives the pin state.
pub proof fn lemma_pin_state_round_trip(state: PinState)
    ensures
        bool_to_pin_state(pin_state_to_bool(state)) == state,
{
}

/// Converting a truth value to a pin state and back gives the truth value.
pub proof fn lemma_bool_round_trip(value: bool)
    ensures
        pin_state_to_bool(bool_to_pin_state(value)) == value,
{
}

} // verus!
