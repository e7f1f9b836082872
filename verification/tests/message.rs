use ble_async_demo::message::{AppEvent, PinState, PUBS_SIZE, QUEUE_SIZE, SUBS_SIZE};

#[test]
fn pin_state_into_bool() {
    assert!(bool::from(PinState::High));
    assert!(!bool::from(PinState::Low));
    let b: bool = PinState::High.into();
    assert!(b);
}

#[test]
fn bool_into_pin_state() {
    assert_eq!(PinState::from(true), PinState::High);
    assert_eq!(PinState::from(false), PinState::Low);
}

#[test]
fn pin_state_round_trip() {
    for state in [PinState::Low, PinState::High] {
        assert_eq!(PinState::from(bool::from(state)), state);
    }
    for value in [false, true] {
        assert_eq!(bool::from(PinState::from(value)), value);
    }
}

#[test]
fn message_bus_sizes() {
    assert_eq!(QUEUE_SIZE, 3);
    assert_eq!(SUBS_SIZE, 5);
    assert_eq!(PUBS_SIZE, 5);
}

#[test]
fn app_event_clone_keeps_payload() {
    let mut bytes: heapless::Vec<u8, 32> = heapless::Vec::new();
    bytes.extend_from_slice(&[1, 2, 3]).unwrap();
    match AppEvent::UartRxWritten(bytes.clone()).clone() {
        AppEvent::UartRxWritten(copy) => assert_eq!(copy.as_slice(), &[1, 2, 3]),
        other => panic!("unexpected event {:?}", other),
    }
    match AppEvent::BleBytesWritten(bytes).clone() {
        AppEvent::BleBytesWritten(copy) => assert_eq!(copy.as_slice(), &[1, 2, 3]),
        other => panic!("unexpected event {:?}", other),
    }
    match AppEvent::Button(PinState::High).clone() {
        AppEvent::Button(state) => assert_eq!(state, PinState::High),
        other => panic!("unexpected event {:?}", other),
    }
    match AppEvent::Led(PinState::Low).clone() {
        AppEvent::Led(state) => assert_eq!(state, PinState::Low),
        other => panic!("unexpected event {:?}", other),
    }
}
