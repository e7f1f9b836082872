//! The rules of the BLE GATT server: what a client's write publishes on the
//! message bus, and what a message on the bus notifies to the client.
use vstd::prelude::*;
use crate::ble::services::{
    ButtonService, ButtonServiceEvent, LedService, LedServiceEvent, UartService, UartServiceEvent,
};
use crate::button::{awaited_after, lemma_button_reports_alternate};
use crate::frame::{frame_bytes, FRAME_CAPACITY};
use crate::message::{bool_to_pin_state, pin_state_to_bool, AppEvent, PinState};

verus! {

/// BLE GATT server: its three services, described by the values of their
/// characteristics (see `services`).
pub struct Server {
    /// UART service
    pub uart: UartService,
    /// LED service
    pub led: LedService,
    /// Button service
    pub button: ButtonService,
}

/// An event that the GATT server reports for one of its services.
pub enum ServerEvent {
    Uart(UartServiceEvent),
    Led(LedServiceEvent),
    Button(ButtonServiceEvent),
}

/// A value to notify to the connected client.
pub enum Notification {
    /// New bytes of the UART service's characteristic.
    UartBytes(heapless::Vec<u8, FRAME_CAPACITY>),
    /// New state of the button service's characteristic.
    ButtonState(bool),
}

/// The event that a client's write publishes on the message bus: written
/// bytes and requested LED states are published; switching notifications on
/// or off publishes nothing.
pub open spec fn published_event(event: ServerEvent) -> Option<AppEvent> {
    match event {
        ServerEvent::Uart(UartServiceEvent::BytesWrite(bytes)) => Some(AppEvent::BleBytesWritten(bytes)),
        ServerEvent::Led(LedServiceEvent::StateWrite(requested)) => Some(
            AppEvent::Led(bool_to_pin_state(requested)),
        ),
        _ => None,
    }
}

/// What a message on the bus notifies to the connected client: frames
/// received on the UART go to the UART service, button changes to the button
/// service; other messages notify nothing.
pub open spec fn notification_of(event: AppEvent) -> Option<Notification> {
    match event {
        AppEvent::UartRxWritten(bytes) => Some(Notification::UartBytes(bytes)),
        AppEvent::Button(state) => Some(Notification::ButtonState(pin_state_to_bool(state))),
        _ => None,
    }
}

/// Handles an event of the GATT server: returns the event to publish on the
/// message bus, if any.
pub fn server_event_to_app_event(event: ServerEvent) -> (r: Option<AppEvent>)
    ensures
        r == published_event(event),
{
    match event {
        ServerEvent::Uart(UartServiceEvent::BytesWrite(bytes)) => Some(AppEvent::BleBytesWritten(bytes)),
        ServerEvent::Uart(UartServiceEvent::BytesCccdWrite { notifications: _ }) => None,
        ServerEvent::Led(LedServiceEvent::StateWrite(requested_state)) => Some(
            AppEvent::Led(PinState::from(requested_state)),
        ),
        ServerEvent::Button(ButtonServiceEvent::StateCccdWrite { notifications: _ }) => None,
    }
}

/// Responds to a message on the bus: returns the value to notify to the
/// connected client, if any.
pub fn app_event_to_notification(event: AppEvent) -> (r: Option<Notification>)
    ensures
        r == notification_of(event),
{
    match event {
        AppEvent::UartRxWritten(bytes) => Some(Notification::UartBytes(bytes)),
        AppEvent::Button(state) => Some(Notification::ButtonState(state.into())),
        _ => None,
    }
}

/// Nothing that a client writes is notified back to a client: neither the
/// bytes it writes to the UART service nor the LED state it requests.
pub proof fn lemma_client_writes_not_echoed(event: ServerEvent)
    ensures
        published_event(event) matches Some(published) ==> notification_of(published) is None,
{
}

/// A state that a client writes to the LED service is published as the pin
/// state that reads back as the same truth value.
pub proof fn lemma_led_write_keeps_state(requested: bool)
    ensures
        published_event(ServerEvent::Led(LedServiceEvent::StateWrite(requested))) matches Some(
            AppEvent::Led(state),
        ) && pin_state_to_bool(state) == requested,
{
}

/// A frame assembled from the UART reaches the client with the same bytes.
pub proof fn lemma_uart_frame_notified(frame: heapless::Vec<u8, FRAME_CAPACITY>)
    ensures
        notification_of(AppEvent::UartRxWritten(frame)) matches Some(Notification::UartBytes(sent))
            && frame_bytes(sent) == frame_bytes(frame),
{
}

/// The button state notified for a reported level is `true` exactly for a
/// high pin: a released (pulled-up) button.
pub proof fn lemma_button_level_notified(level: PinState)
    ensures
        notification_of(AppEvent::Button(level)) == Some(
            Notification::ButtonState(level == PinState::High),
        ),
{
}

/// The button states notified to a client, in the order that the button task
/// reports them, are `false` (pressed), `true` (released), `false`, ...: the
/// `n`-th (counted from zero) is `true` exactly when `n` is odd.
pub proof fn lemma_button_notifications_alternate(n: nat)
    ensures
        notification_of(AppEvent::Button(awaited_after(n))) == Some(
            Notification::ButtonState(n % 2 == 1),
        ),
{
    lemma_button_reports_alternate(n);
}

} // verus!
