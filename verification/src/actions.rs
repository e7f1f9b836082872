//! What the device itself does with the events on the message bus: a state
//! written over BLE to the LED service drives the output pin of a LED to that
//! level (`true` is high), and bytes written over BLE go out on the UART to
//! the serial monitor. Whether a high pin lights the LED depends on the
//! board: the LEDs of the nRF52 DK are active low.
use vstd::prelude::*;
use crate::ble::server::{published_event, ServerEvent};
use crate::ble::services::{LedServiceEvent, UartServiceEvent};
use crate::frame::{frame_bytes, FRAME_CAPACITY};
use crate::message::{pin_state_to_bool, AppEvent, PinState};

verus! {

/// An action that the device performs on its own peripherals.
pub enum DeviceAction {
    /// Drive the pin of the LED controlled over BLE to this level.
    DriveLed(PinState),
    /// Write these bytes to the UART's TX line.
    UartTx(heapless::Vec<u8, FRAME_CAPACITY>),
}

/// The action that an event on the bus asks of the device: a requested LED
/// state drives the LED's pin to that level, bytes written over BLE go to the UART; other events
/// ask nothing of the device.
pub open spec fn action_of(event: AppEvent) -> Option<DeviceAction> {
    match event {
        AppEvent::Led(state) => Some(DeviceAction::DriveLed(state)),
        AppEvent::BleBytesWritten(bytes) => Some(DeviceAction::UartTx(bytes)),
        _ => None,
    }
}

/// Responds to a message on the bus: returns the action that the device
/// performs, if any.
pub fn bus_action_of(event: AppEvent) -> (r: Option<DeviceAction>)
    ensures
        r == action_of(event),
{
    match event {
        AppEvent::Led(state) => Some(DeviceAction::DriveLed(state)),
        AppEvent::BleBytesWritten(bytes) => Some(DeviceAction::UartTx(bytes)),
        _ => None,
    }
}

/// A client that writes `requested` to the LED service's state sets the LED
/// pin: the published event drives the pin to the level that reads as
/// `requested` (`true` is high).
pub proof fn lemma_led_write_drives_led(requested: bool)
    ensures
        published_event(ServerEvent::Led(LedServiceEvent::StateWrite(requested))) matches Some(
            published,
        ) && action_of(published) matches Some(DeviceAction::DriveLed(level)) && pin_state_to_bool(
            level,
        ) == requested,
{
}

/// Bytes that a client writes to the UART service are relayed unchanged to
/// the UART's TX line.
pub proof fn lemma_uart_write_relayed(bytes: heapless::Vec<u8, FRAME_CAPACITY>)
    ensures
        published_event(ServerEvent::Uart(UartServiceEvent::BytesWrite(bytes))) matches Some(
            published,
        ) && action_of(published) matches Some(DeviceAction::UartTx(sent)) && frame_bytes(sent)
            == frame_bytes(bytes),
{
}

/// Events that the device reports itself (button changes, frames received on
/// the UART) ask no action of the device: they are for the BLE client.
pub proof fn lemma_device_reports_need_no_action(event: AppEvent)
    ensures
        (event is Button || event is UartRxWritten) ==> action_of(event) is None,
{
}

} // verus!
