use gamepad::audio::Tune;
use gamepad::display::DisplayFrame;
use gamepad::gatt::{AttrValue, BleServer};
use gamepad::hid::{GamepadButton, Notification, PinEvent, BUTTON_A_HANDLE};
use gamepad::session::{Session, SessionState, CONNECT_FRAME_MS, IDLE_FRAME_MS};
use gamepad::stick::{Axis, STICK_DIVIDER, STICK_OFFSET, STICK_X_HANDLE};

#[test]
fn serve_cycle_walks_idle_advertising_connected_idle() {
    let mut s = Session::new("Rust Gamepad");
    assert_eq!(s.state, SessionState::Idle);
    assert!(!s.may_notify());

    let a = s.begin_advertising();
    assert_eq!(s.state, SessionState::Advertising);
    assert_eq!(a.show, DisplayFrame::QuestionMark);
    assert_eq!(a.show_ms, IDLE_FRAME_MS);

    let c = s.on_advertise_result(true);
    assert_eq!(s.state, SessionState::Connected);
    assert_eq!(c.feedback, Some((Tune::Connect, DisplayFrame::Heart)));
    assert_eq!(c.show_ms, CONNECT_FRAME_MS);
    assert!(c.start_tasks);
    assert!(s.may_notify());

    let d = s.on_disconnect();
    assert_eq!(s.state, SessionState::Idle);
    assert!(d.cancel_tasks);
    assert_eq!(d.play, Tune::Disconnect);
    assert!(!s.may_notify());
    assert!(!s.tasks_running);
}

#[test]
fn failed_advertise_attempt_just_retries() {
    let mut s = Session::new("Rust Gamepad");
    s.begin_advertising();
    let c = s.on_advertise_result(false);
    assert_eq!(s.state, SessionState::Idle);
    assert_eq!(c.feedback, None);
    assert!(!c.start_tasks);
    assert!(!s.may_notify());
    // the idle state is the retry: advertising can begin again at once
    s.begin_advertising();
    assert_eq!(s.state, SessionState::Advertising);
}

#[test]
fn payload_survives_across_sessions() {
    let mut s = Session::new("Rust Gamepad");
    let before = s.adv.advertiser_data.clone();
    s.begin_advertising();
    s.on_advertise_result(true);
    s.on_disconnect();
    assert_eq!(s.adv.advertiser_data, before);
    assert_eq!(s.adv.scan_data, vec![0x03, 0x03, 0x0f, 0x18]);
}

#[test]
fn no_notification_against_stale_connection() {
    let mut s = Session::new("Rust Gamepad");
    let mut server = BleServer::new();
    s.begin_advertising();
    s.on_advertise_result(true);

    let n = Notification { handle: BUTTON_A_HANDLE, value: true };
    assert!(s.publish_button(&mut server, n));
    assert_eq!(server.get(BUTTON_A_HANDLE), Some(AttrValue::Bool(true)));

    s.on_disconnect();
    let n = Notification { handle: BUTTON_A_HANDLE, value: false };
    assert!(!s.publish_button(&mut server, n));
    // the gated-off push left no trace
    assert_eq!(server.get(BUTTON_A_HANDLE), Some(AttrValue::Bool(true)));
    assert!(!s.publish_level(&mut server, STICK_X_HANDLE, 2));
    assert_eq!(server.get(STICK_X_HANDLE), Some(AttrValue::Signed(0)));
}

#[test]
fn end_to_end_button_press_reaches_table() {
    let mut s = Session::new("Rust Gamepad");
    let mut server = BleServer::new();
    let mut button = GamepadButton::new('A', BUTTON_A_HANDLE);
    s.begin_advertising();
    s.on_advertise_result(true);

    let step = button.on_event(PinEvent::Low);
    let n = step.notify.expect("press must notify");
    assert!(s.publish_button(&mut server, n));
    assert_eq!(server.get(BUTTON_A_HANDLE), Some(AttrValue::Bool(true)));

    button.on_event(PinEvent::DebounceElapsed);
    let step = button.on_event(PinEvent::High);
    let n = step.notify.expect("release must notify");
    assert!(s.publish_button(&mut server, n));
    assert_eq!(server.get(BUTTON_A_HANDLE), Some(AttrValue::Bool(false)));
}

#[test]
fn end_to_end_stick_level_reaches_table() {
    let mut s = Session::new("Rust Gamepad");
    let mut server = BleServer::new();
    let mut axis = Axis::new(STICK_OFFSET, STICK_DIVIDER);
    s.begin_advertising();
    s.on_advertise_result(true);

    if let Some(level) = axis.changed(STICK_OFFSET - STICK_DIVIDER) {
        assert!(s.publish_level(&mut server, STICK_X_HANDLE, level));
    } else {
        panic!("level change must notify");
    }
    assert_eq!(server.get(STICK_X_HANDLE), Some(AttrValue::Signed(1)));
}
