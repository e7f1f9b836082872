[package]
name = "ble_async_demo"
version = "0.1.0"
edition = "2021"
publish = false

[dependencies]
heapless = "0.8"
ens160 = "*"
defmt = "*"
embassy-executor = "*"
embassy-futures = "*"
embassy-nrf = { version = "*", features = ["nrf52840"] }
embassy-sync = "*"
embassy-time = "*"
futures = { version = "*", default-features = false }
nrf-softdevice = { version = "*", features = ["nrf52840", "s140", "ble-peripheral", "ble-gatt-server"] }
static_cell = "*"
