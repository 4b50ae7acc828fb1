use gamepad::stick::{Axis, StickService, STICK_DIVIDER, STICK_OFFSET, STICK_X_HANDLE, STICK_Y_HANDLE};
use gamepad::stick::stick_step;

// Raw readings that quantize to levels 0, 1 and 2 with the shipped
// calibration: level = -((raw - 1870) / 623) truncated toward zero.
const RAW_LEVEL_0: i16 = 1870;
const RAW_LEVEL_1: i16 = 1870 - 623;
const RAW_LEVEL_2: i16 = 1870 - 1246;

#[test]
fn notifies_only_at_level_transitions() {
    // Samples quantizing to levels 0,0,1,1,2,2: two notifications, not six.
    let samples = [RAW_LEVEL_0, RAW_LEVEL_0, RAW_LEVEL_1, RAW_LEVEL_1, RAW_LEVEL_2, RAW_LEVEL_2];
    let mut axis = Axis::new(STICK_OFFSET, STICK_DIVIDER);
    let mut emitted: Vec<i8> = Vec::new();
    for raw in samples {
        if let Some(level) = axis.changed(raw) {
            emitted.push(level);
        }
    }
    assert_eq!(emitted, vec![1, 2]);
}

#[test]
fn repeated_identical_samples_notify_once() {
    let mut axis = Axis::new(STICK_OFFSET, STICK_DIVIDER);
    assert_eq!(axis.changed(RAW_LEVEL_1), Some(1));
    for _ in 0..10 {
        assert_eq!(axis.changed(RAW_LEVEL_1), None);
    }
}

#[test]
fn run_samples_collects_the_emission_sequence() {
    let samples = vec![
        RAW_LEVEL_0, RAW_LEVEL_0, RAW_LEVEL_1, RAW_LEVEL_1, RAW_LEVEL_2, RAW_LEVEL_2, RAW_LEVEL_0,
    ];
    let mut axis = Axis::new(STICK_OFFSET, STICK_DIVIDER);
    let emitted = axis.run_samples(&samples);
    assert_eq!(emitted, vec![1, 2, 0]);
    assert_eq!(axis.old, 0);
}

#[test]
fn division_truncates_toward_zero() {
    // One short of a whole divisor step in either direction stays level 0.
    let mut axis = Axis::new(STICK_OFFSET, STICK_DIVIDER);
    assert_eq!(axis.changed(STICK_OFFSET + (STICK_DIVIDER - 1)), None);
    assert_eq!(axis.changed(STICK_OFFSET - (STICK_DIVIDER - 1)), None);
    // A full step away moves one level, inverted.
    assert_eq!(axis.changed(STICK_OFFSET + STICK_DIVIDER), Some(-1));
    assert_eq!(axis.changed(STICK_OFFSET - STICK_DIVIDER), Some(1));
}

#[test]
fn level_clamped_to_signed_byte() {
    let mut axis = Axis::new(0, 1);
    assert_eq!(axis.changed(-200), Some(127));
    assert_eq!(axis.changed(300), Some(-128));
    assert_eq!(axis.changed(-32768), Some(127));
    assert_eq!(axis.changed(32767), Some(-128));
}

#[test]
fn full_range_spans_about_three_levels() {
    let mut axis = Axis::new(STICK_OFFSET, STICK_DIVIDER);
    assert_eq!(axis.changed(0), Some(3));
    let mut axis = Axis::new(STICK_OFFSET, STICK_DIVIDER);
    assert_eq!(axis.changed(3740), Some(-3));
}

#[test]
fn step_shows_position_unless_centered() {
    let mut x = Axis::new(STICK_OFFSET, STICK_DIVIDER);
    let mut y = Axis::new(STICK_OFFSET, STICK_DIVIDER);
    let r = stick_step(&mut x, &mut y, RAW_LEVEL_0, RAW_LEVEL_0);
    assert_eq!(r.notify_x, None);
    assert_eq!(r.notify_y, None);
    assert_eq!(r.show, None);
    let r = stick_step(&mut x, &mut y, RAW_LEVEL_1, RAW_LEVEL_0);
    assert_eq!(r.notify_x, Some(1));
    assert_eq!(r.notify_y, None);
    assert_eq!(r.show, Some((1, 0)));
    // Unchanged levels notify nothing, but an off-center stick still shows.
    let r = stick_step(&mut x, &mut y, RAW_LEVEL_1, RAW_LEVEL_0);
    assert_eq!(r.notify_x, None);
    assert_eq!(r.show, Some((1, 0)));
}

#[test]
fn stick_schema_handles() {
    let s = StickService::new();
    assert_eq!(s.x, STICK_X_HANDLE);
    assert_eq!(s.y, STICK_Y_HANDLE);
    assert_ne!(s.x, s.y);
}
