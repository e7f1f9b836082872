//! Event handling logic of a BLE peripheral that bridges GPIO, UART and GATT
//! services, with the rules that the device's tasks follow stated and proved.

pub mod message;
pub mod frame;
pub mod uart_rx;
pub mod button;
pub mod led;
pub mod ble;
pub mod air_quality;
pub mod actions;
