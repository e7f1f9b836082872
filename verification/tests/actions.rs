use ble_async_demo::actions::{bus_action_of, DeviceAction};
use ble_async_demo::ble::server::{server_event_to_app_event, ServerEvent};
use ble_async_demo::ble::services::{LedServiceEvent, UartServiceEvent};
use ble_async_demo::message::{AppEvent, PinState};

fn bytes(data: &[u8]) -> heapless::Vec<u8, 32> {
    heapless::Vec::from_slice(data).unwrap()
}

#[test]
fn led_write_drives_led() {
    for (requested, level) in [(true, PinState::High), (false, PinState::Low)] {
        let published =
            server_event_to_app_event(ServerEvent::Led(LedServiceEvent::StateWrite(requested))).unwrap();
        match bus_action_of(published) {
            Some(DeviceAction::DriveLed(l)) => {
                assert_eq!(l, level);
                assert_eq!(bool::from(l), requested);
            }
            _ => panic!("expected the LED to be driven"),
        }
    }
}

#[test]
fn uart_write_relayed_to_tx() {
    let published =
        server_event_to_app_event(ServerEvent::Uart(UartServiceEvent::BytesWrite(bytes(b"hello")))).unwrap();
    match bus_action_of(published) {
        Some(DeviceAction::UartTx(sent)) => assert_eq!(sent.as_slice(), b"hello"),
        _ => panic!("expected bytes for the UART"),
    }
}

#[test]
fn device_reports_need_no_action() {
    assert!(bus_action_of(AppEvent::Button(PinState::Low)).is_none());
    assert!(bus_action_of(AppEvent::Button(PinState::High)).is_none());
    assert!(bus_action_of(AppEvent::UartRxWritten(bytes(b"x\r"))).is_none());
}
