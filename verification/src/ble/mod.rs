//! BLE GATT services, the rules of the GATT server and the advertising data.

pub mod advertising;
pub mod server;
pub mod services;
