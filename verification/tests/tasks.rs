use ble_async_demo::button::ButtonMonitor;
use ble_async_demo::led::{LedBlinker, LedStep, LED_LOW_DELAY_MS, LED_HIGH_DELAY_MS};
use ble_async_demo::message::{AppEvent, PinState};

fn button_level(event: AppEvent) -> PinState {
    match event {
        AppEvent::Button(state) => state,
        other => panic!("unexpected event {:?}", other),
    }
}

#[test]
fn button_waits_for_press_first() {
    let m = ButtonMonitor::new();
    assert_eq!(m.awaited_level(), PinState::Low);
}

#[test]
fn button_reports_alternate() {
    let mut m = ButtonMonitor::new();
    for n in 0..6 {
        let expected = if n % 2 == 0 { PinState::Low } else { PinState::High };
        assert_eq!(m.awaited_level(), expected);
        assert_eq!(button_level(m.on_level_reached()), expected);
    }
}

#[test]
fn led_blinks_with_period() {
    let mut b = LedBlinker::new();
    assert_eq!(b.next_step(), LedStep { delay_ms: 100, level: PinState::High });
    assert_eq!(b.next_step(), LedStep { delay_ms: 1_000, level: PinState::Low });
    assert_eq!(b.next_step(), LedStep { delay_ms: 100, level: PinState::High });
    assert_eq!(LED_HIGH_DELAY_MS + LED_LOW_DELAY_MS, 1_100);
}
