# ble_async_demo

The logic of a BLE peripheral for nRF52 boards (Embassy and the Nordic
SoftDevice), written in Verus with its rules stated and proved.

- `src/` is the verified library: pin states and the events on the message
  bus (`message`), the frames held in `heapless::Vec` (`frame`), assembling
  UART input into frames (`uart_rx`), the button and LED task state machines
  (`button`, `led`), what bus events ask of the device itself: driving the
  LED controlled over BLE and relaying BLE writes to the UART (`actions`),
  the GATT services, the server's event rules and the advertising data
  (`ble`), and grading the ENS160 sensor's eCO2 reading (`air_quality`).
- `app/` is the firmware around it: board setup, the SoftDevice, the message
  bus and the async tasks that perform what the library decides.
- `tests/` runs the library on concrete values.
