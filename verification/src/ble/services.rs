//! BLE GATT services: their UUIDs, characteristic values and write events.
use vstd::prelude::*;
use crate::frame::FRAME_CAPACITY;

verus! {

/// UUID of the UART service: 9e7312e1-2354-11eb-9f10-fbc30a62cf38.
pub const UART_SERVICE_UUID: u128 = 0x9e7312e1_2354_11eb_9f10_fbc30a62cf38;

/// UUID of the UART service's `bytes` characteristic (read, write, notify).
pub const UART_BYTES_UUID: u128 = 0x9e7312e1_2354_11eb_9f10_fbc30a63cf38;

/// UUID of the LED service: 9e7312e2-2354-11eb-9f10-fbc30a62cf38.
pub const LED_SERVICE_UUID: u128 = 0x9e7312e2_2354_11eb_9f10_fbc30a62cf38;

/// UUID of the LED service's `state` characteristic (write).
pub const LED_STATE_UUID: u128 = 0x9e7312e2_2354_11eb_9f10_fbc30a63cf38;

/// UUID of the button service: 9e7312e3-2354-11eb-9f10-fbc30a62cf38.
pub const BUTTON_SERVICE_UUID: u128 = 0x9e7312e3_2354_11eb_9f10_fbc30a62cf38;

/// UUID of the button service's `state` characteristic (read, notify).
pub const BUTTON_STATE_UUID: u128 = 0x9e7312e3_2354_11eb_9f10_fbc30a63cf38;

/// UART service: a characteristic of up to 32 bytes.
///
/// The service structs and `Server` describe the services by the values of
/// their characteristics. The SoftDevice serves them from declarations that
/// its GATT macros turn into handles and attribute tables; the firmware
/// makes those declarations with the same UUIDs and value types, and the
/// rules of this crate take and give the plain values.
pub struct UartService {
    pub bytes: heapless::Vec<u8, FRAME_CAPACITY>,
}

/// LED service: the requested LED state.
pub struct LedService {
    pub state: bool,
}

/// Button service: the button state.
pub struct ButtonService {
    pub state: bool,
}

/// What a client did to the UART service.
pub enum UartServiceEvent {
    /// The client wrote bytes to the characteristic.
    BytesWrite(heapless::Vec<u8, FRAME_CAPACITY>),
    /// The client switched notifications of the characteristic on or off.
    BytesCccdWrite { notifications: bool },
}

/// What a client did to the LED service.
pub enum LedServiceEvent {
    /// The client wrote a requested LED state.
    StateWrite(bool),
}

/// What a client did to the button service.
pub enum ButtonServiceEvent {
    /// The client switched notifications of the button state on or off.
    StateCccdWrite { notifications: bool },
}

} // verus!
