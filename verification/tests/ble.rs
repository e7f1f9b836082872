use ble_async_demo::ble::advertising::{advertising_data, scan_response_data};
use ble_async_demo::ble::server::{
    app_event_to_notification, server_event_to_app_event, Notification, ServerEvent,
};
use ble_async_demo::ble::services::{
    ButtonServiceEvent, LedServiceEvent, UartServiceEvent, UART_SERVICE_UUID,
};
use ble_async_demo::message::{AppEvent, PinState};

fn bytes(data: &[u8]) -> heapless::Vec<u8, 32> {
    heapless::Vec::from_slice(data).unwrap()
}

#[test]
fn advertising_data_bytes() {
    assert_eq!(
        advertising_data(),
        [0x02, 0x01, 0x06, 0x0a, 0x09, b'H', b'e', b'l', b'l', b'o', b'R', b'u', b's', b't']
    );
}

#[test]
fn scan_response_bytes() {
    let data = scan_response_data();
    assert_eq!(
        data,
        [
            0x11, 0x07, 0x38, 0xcf, 0x62, 0x0a, 0xc3, 0xfb, 0x10, 0x9f, 0xeb, 0x11, 0x54, 0x23,
            0xe1, 0x12, 0x73, 0x9E,
        ]
    );
    assert_eq!(&data[2..], &UART_SERVICE_UUID.to_le_bytes()[..]);
}

#[test]
fn uart_write_is_published() {
    let event = ServerEvent::Uart(UartServiceEvent::BytesWrite(bytes(b"on")));
    match server_event_to_app_event(event) {
        Some(AppEvent::BleBytesWritten(b)) => assert_eq!(b.as_slice(), b"on"),
        other => panic!("unexpected {:?}", other),
    }
}

#[test]
fn led_write_is_published_as_pin_state() {
    for (requested, level) in [(true, PinState::High), (false, PinState::Low)] {
        let event = ServerEvent::Led(LedServiceEvent::StateWrite(requested));
        match server_event_to_app_event(event) {
            Some(AppEvent::Led(state)) => assert_eq!(state, level),
            other => panic!("unexpected {:?}", other),
        }
    }
}

#[test]
fn notification_switches_publish_nothing() {
    for notifications in [false, true] {
        let uart = ServerEvent::Uart(UartServiceEvent::BytesCccdWrite { notifications });
        assert!(server_event_to_app_event(uart).is_none());
        let button = ServerEvent::Button(ButtonServiceEvent::StateCccdWrite { notifications });
        assert!(server_event_to_app_event(button).is_none());
    }
}

#[test]
fn uart_frames_are_notified() {
    match app_event_to_notification(AppEvent::UartRxWritten(bytes(b"hi\r"))) {
        Some(Notification::UartBytes(b)) => assert_eq!(b.as_slice(), b"hi\r"),
        _ => panic!("expected UART bytes"),
    }
}

#[test]
fn button_changes_are_notified() {
    assert!(matches!(
        app_event_to_notification(AppEvent::Button(PinState::Low)),
        Some(Notification::ButtonState(false))
    ));
    assert!(matches!(
        app_event_to_notification(AppEvent::Button(PinState::High)),
        Some(Notification::ButtonState(true))
    ));
}

#[test]
fn client_writes_are_not_echoed() {
    assert!(app_event_to_notification(AppEvent::BleBytesWritten(bytes(b"x"))).is_none());
    assert!(app_event_to_notification(AppEvent::Led(PinState::High)).is_none());
    let published = server_event_to_app_event(ServerEvent::Led(LedServiceEvent::StateWrite(true)))
        .unwrap();
    assert!(app_event_to_notification(published).is_none());
}

fn ad_structures(mut data: &[u8]) -> Vec<(u8, Vec<u8>)> {
    let mut out = Vec::new();
    while !data.is_empty() {
        let len = data[0] as usize;
        assert!(len >= 1 && len + 1 <= data.len(), "malformed AD structure");
        out.push((data[1], data[2..len + 1].to_vec()));
        data = &data[len + 1..];
    }
    out
}

#[test]
fn payloads_are_ad_structures() {
    let adv = advertising_data();
    assert!(adv.len() <= 31);
    assert_eq!(
        ad_structures(&adv),
        vec![(0x01, vec![0x06]), (0x09, b"HelloRust".to_vec())]
    );
    let scan = scan_response_data();
    assert!(scan.len() <= 31);
    assert_eq!(ad_structures(&scan), vec![(0x07, UART_SERVICE_UUID.to_le_bytes().to_vec())]);
}

#[test]
fn button_notifications_alternate() {
    let mut monitor = ble_async_demo::button::ButtonMonitor::new();
    for n in 0..5 {
        match app_event_to_notification(monitor.on_level_reached()) {
            Some(Notification::ButtonState(state)) => assert_eq!(state, n % 2 == 1),
            _ => panic!("expected a button state"),
        }
    }
}
