use gamepad::battery::{BatteryService, BATTERY_LEVEL_HANDLE};
use gamepad::gatt::{
    AttrValue, BleServer, ConnectionEvent, RouterOutcome, PLAYER_INDEX_HANDLE,
};
use gamepad::hid::{BUTTON_A_HANDLE, BUTTON_C_HANDLE, BUTTON_F_HANDLE};
use gamepad::stick::{STICK_X_HANDLE, STICK_Y_HANDLE};

#[test]
fn fresh_server_reads_defaults() {
    let server = BleServer::new();
    assert_eq!(server.get(BUTTON_A_HANDLE), Some(AttrValue::Bool(false)));
    assert_eq!(server.get(BUTTON_F_HANDLE), Some(AttrValue::Bool(false)));
    assert_eq!(server.get(STICK_X_HANDLE), Some(AttrValue::Signed(0)));
    assert_eq!(server.get(STICK_Y_HANDLE), Some(AttrValue::Signed(0)));
    assert_eq!(server.get(PLAYER_INDEX_HANDLE), Some(AttrValue::Unsigned(0)));
    assert_eq!(server.get(0), None);
    assert_eq!(server.get(1000), None);
}

#[test]
fn write_to_player_index_applies() {
    let mut server = BleServer::new();
    let outcome = server.handle_event(&ConnectionEvent::Write {
        handle: PLAYER_INDEX_HANDLE,
        data: vec![5, 99],
    });
    assert_eq!(outcome, RouterOutcome::WriteApplied(5));
    assert_eq!(server.get(PLAYER_INDEX_HANDLE), Some(AttrValue::Unsigned(5)));
}

#[test]
fn write_to_unwritable_handle_ignored() {
    let mut server = BleServer::new();
    let outcome = server.handle_event(&ConnectionEvent::Write {
        handle: BUTTON_C_HANDLE,
        data: vec![1],
    });
    assert_eq!(outcome, RouterOutcome::Ignored);
    assert_eq!(server.get(BUTTON_C_HANDLE), Some(AttrValue::Bool(false)));
    let outcome = server.handle_event(&ConnectionEvent::Write { handle: 77, data: vec![1] });
    assert_eq!(outcome, RouterOutcome::Ignored);
}

#[test]
fn write_without_payload_ignored() {
    let mut server = BleServer::new();
    let outcome = server.handle_event(&ConnectionEvent::Write {
        handle: PLAYER_INDEX_HANDLE,
        data: vec![],
    });
    assert_eq!(outcome, RouterOutcome::Ignored);
    assert_eq!(server.get(PLAYER_INDEX_HANDLE), Some(AttrValue::Unsigned(0)));
}

#[test]
fn read_event_never_mutates() {
    let mut server = BleServer::new();
    server.handle_event(&ConnectionEvent::Write { handle: PLAYER_INDEX_HANDLE, data: vec![3] });
    let outcome = server.handle_event(&ConnectionEvent::Read { handle: PLAYER_INDEX_HANDLE });
    assert_eq!(outcome, RouterOutcome::Observed);
    assert_eq!(server.get(PLAYER_INDEX_HANDLE), Some(AttrValue::Unsigned(3)));
    let outcome = server.handle_event(&ConnectionEvent::Read { handle: 77 });
    assert_eq!(outcome, RouterOutcome::Observed);
}

#[test]
fn disconnect_event_ends_session() {
    let mut server = BleServer::new();
    let outcome = server.handle_event(&ConnectionEvent::Disconnected { reason: 0x13 });
    assert_eq!(outcome, RouterOutcome::SessionEnded);
    assert_eq!(server.get(BUTTON_A_HANDLE), Some(AttrValue::Bool(false)));
}

#[test]
fn set_button_matches_button_handles_only() {
    let mut server = BleServer::new();
    assert!(server.set_button(BUTTON_A_HANDLE, true));
    assert_eq!(server.get(BUTTON_A_HANDLE), Some(AttrValue::Bool(true)));
    assert_eq!(server.get(BUTTON_C_HANDLE), Some(AttrValue::Bool(false)));
    assert!(!server.set_button(STICK_X_HANDLE, true));
    assert_eq!(server.get(STICK_X_HANDLE), Some(AttrValue::Signed(0)));
}

#[test]
fn set_level_matches_stick_handles_only() {
    let mut server = BleServer::new();
    assert!(server.set_level(STICK_Y_HANDLE, -2));
    assert_eq!(server.get(STICK_Y_HANDLE), Some(AttrValue::Signed(-2)));
    assert!(!server.set_level(PLAYER_INDEX_HANDLE, 1));
    assert_eq!(server.get(PLAYER_INDEX_HANDLE), Some(AttrValue::Unsigned(0)));
}

#[test]
fn events_routed_in_order_until_disconnect() {
    let mut server = BleServer::new();
    let events = vec![
        ConnectionEvent::Write { handle: PLAYER_INDEX_HANDLE, data: vec![1] },
        ConnectionEvent::Read { handle: PLAYER_INDEX_HANDLE },
        ConnectionEvent::Write { handle: PLAYER_INDEX_HANDLE, data: vec![2] },
        ConnectionEvent::Disconnected { reason: 0x13 },
        ConnectionEvent::Write { handle: PLAYER_INDEX_HANDLE, data: vec![7] },
    ];
    let n = server.run_until_disconnect(&events);
    assert_eq!(n, 3);
    // writes before the disconnect applied in order; the one after it never
    assert_eq!(server.get(PLAYER_INDEX_HANDLE), Some(AttrValue::Unsigned(2)));
}

#[test]
fn run_without_disconnect_consumes_everything() {
    let mut server = BleServer::new();
    let events = vec![
        ConnectionEvent::Write { handle: PLAYER_INDEX_HANDLE, data: vec![4] },
        ConnectionEvent::Read { handle: BUTTON_A_HANDLE },
    ];
    let n = server.run_until_disconnect(&events);
    assert_eq!(n, 2);
    assert_eq!(server.get(PLAYER_INDEX_HANDLE), Some(AttrValue::Unsigned(4)));
}

#[test]
fn battery_schema_handle() {
    let bas = BatteryService::new();
    assert_eq!(bas.battery_level, BATTERY_LEVEL_HANDLE);
}
