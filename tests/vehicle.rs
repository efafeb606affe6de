use komsi::vehicle::{describe_change, TrackedField, VehicleLogger, VehicleState};
use std::sync::{Arc, Mutex};

struct TestLogger {
    logs: Arc<Mutex<Vec<String>>>,
}

impl VehicleLogger for TestLogger {
    fn log(&self, msg: String) {
        self.logs.lock().unwrap().push(msg);
    }
}

fn recording_logger() -> (TestLogger, Arc<Mutex<Vec<String>>>) {
    let logs = Arc::new(Mutex::new(Vec::new()));
    (TestLogger { logs: Arc::clone(&logs) }, logs)
}

#[test]
fn test_vehicle_state_new() {
    let state = VehicleState::new();
    assert_eq!(state.ignition, 0);
    assert_eq!(state.speed, 0);
}

#[test]
fn test_compare_no_change() {
    let old = VehicleState::new();
    let new = VehicleState::new();
    let buffer = old.compare(&new, false, None);
    assert!(buffer.is_empty());
}

#[test]
fn test_compare_with_changes() {
    let old = VehicleState::new();
    let mut new = VehicleState::new();
    new.ignition = 1;
    new.speed = 50;

    let buffer = old.compare(&new, false, None);
    // Ignition(65) + '1' (49) + Speed(121) + '50' (53, 48) + EOL(10)
    let expected = vec![65, 49, 121, 53, 48, 10];
    assert_eq!(buffer, expected);
}

#[test]
fn test_compare_force() {
    let old = VehicleState::new();
    let new = VehicleState::new();
    let buffer = old.compare(&new, true, None);
    assert!(!buffer.is_empty());
    assert_eq!(buffer.last(), Some(&10)); // Should end with EOL
}

#[test]
fn test_compare_with_logger() {
    let old = VehicleState::new();
    let mut new = VehicleState::new();
    new.ignition = 1;

    let (logger, logs) = recording_logger();
    let _ = old.compare(&new, false, Some(&logger));

    let logs_locked = logs.lock().unwrap();
    assert_eq!(logs_locked.len(), 1);
    assert!(logs_locked[0].contains("ignition: 0 -> 1"));
}

#[test]
fn default_is_all_zero() {
    assert_eq!(VehicleState::default(), VehicleState::new());
    let s = VehicleState::new();
    assert_eq!(s.lights_fourth_door, 0);
    assert_eq!(s.gear_selector, 0);
    assert_eq!(s.maxspeed, 0);
    assert_eq!(s.fuel, 0);
}

#[test]
fn force_sends_all_fields_in_canonical_order() {
    let s = VehicleState::new();
    let buffer = s.compare(&s, true, None);
    let codes = [65u8, 66, 67, 69, 68, 70, 71, 75, 76, 72, 73, 74, 77, 120, 121, 115, 78, 80];
    let mut expected = Vec::new();
    for c in codes {
        expected.push(c);
        expected.push(48);
    }
    expected.push(10);
    assert_eq!(buffer, expected);
}

#[test]
fn force_uses_current_values() {
    let mut s = VehicleState::new();
    s.fuel = 12;
    s.door_enable = 1;
    let buffer = s.compare(&s, true, None);
    assert_eq!(buffer.len(), 38);
    assert_eq!(&buffer[26..29], &[120, 49, 50]);
    assert_eq!(&buffer[buffer.len() - 3..], &[80, 49, 10]);
}

#[test]
fn no_change_on_nonzero_state_is_empty_and_silent() {
    let mut s = VehicleState::new();
    s.speed = 88;
    s.indicator = 3;
    s.gear_selector = 2;
    let (logger, logs) = recording_logger();
    assert!(s.compare(&s.clone(), false, Some(&logger)).is_empty());
    assert!(logs.lock().unwrap().is_empty());
}

#[test]
fn minimal_changes_in_canonical_order() {
    let before = VehicleState::new();
    let mut after = VehicleState::new();
    after.door_enable = 2;
    after.maxspeed = 1000;
    after.doors = 1;
    let buffer = before.compare(&after, false, None);
    assert_eq!(buffer, vec![67, 49, 115, 49, 48, 48, 48, 80, 50, 10]);
}

#[test]
fn changed_value_back_to_zero_is_sent() {
    let mut before = VehicleState::new();
    before.lights_high_beam = 1;
    let after = VehicleState::new();
    assert_eq!(before.compare(&after, false, None), vec![77, 48, 10]);
}

#[test]
fn state_only_fields_are_never_sent() {
    let before = VehicleState::new();
    let mut after = VehicleState::new();
    after.lights_fourth_door = 1;
    after.gear_selector = 4;
    assert!(before.compare(&after, false, None).is_empty());
}

#[test]
fn logger_does_not_change_bytes() {
    let before = VehicleState::new();
    let mut after = VehicleState::new();
    after.engine = 1;
    after.fuel = 300;
    let (logger, _logs) = recording_logger();
    let plain = before.compare(&after, false, None);
    let logged = before.compare(&after, false, Some(&logger));
    assert_eq!(plain, logged);
    assert_eq!(plain, before.compare(&after, false, None));
}

#[test]
fn logger_gets_one_line_per_sent_field() {
    let before = VehicleState::new();
    let mut after = VehicleState::new();
    after.ignition = 1;
    after.speed = 50;
    let (logger, logs) = recording_logger();
    let _ = before.compare(&after, false, Some(&logger));
    let logs = logs.lock().unwrap();
    assert_eq!(*logs, vec!["ignition: 0 -> 1 ".to_string(), "speed:  0 -> 50 ".to_string()]);
}

#[test]
fn forced_logger_gets_every_field() {
    let s = VehicleState::new();
    let (logger, logs) = recording_logger();
    let _ = s.compare(&s, true, Some(&logger));
    let logs = logs.lock().unwrap();
    assert_eq!(logs.len(), 18);
    assert_eq!(logs[0], "ignition: 0 -> 0 ");
    assert_eq!(logs[17], "door_enable: 0 -> 0 ");
}

#[test]
fn comparison_reflects_net_differences_only() {
    let a = VehicleState::new();
    let mut b = VehicleState::new();
    b.ignition = 1;
    let mut c = VehicleState::new();
    c.speed = 7;
    let mut chained = a.compare(&b, false, None);
    chained.extend(b.compare(&c, false, None));
    assert_eq!(chained, vec![65, 49, 10, 65, 48, 121, 55, 10]);
    assert_eq!(a.compare(&c, false, None), vec![121, 55, 10]);
    assert!(a.compare(&a.clone(), false, None).is_empty());
}

#[test]
fn describe_change_formats() {
    assert_eq!(describe_change("fuel", 7, 12, true), "fuel:  7 -> 12 ");
    assert_eq!(describe_change("engine", 255, 0, false), "engine: 255 -> 0 ");
}

#[test]
fn tracked_field_order_and_names() {
    assert_eq!(TrackedField::at(0), TrackedField::Ignition);
    assert_eq!(TrackedField::at(3), TrackedField::FixingBrake);
    assert_eq!(TrackedField::at(17), TrackedField::DoorEnable);
    assert_eq!(TrackedField::at(15).name(), "maxspeed");
    assert!(TrackedField::Fuel.is_wide());
    assert!(!TrackedField::Doors.is_wide());
}

#[test]
fn summary_lists_every_field() {
    let mut s = VehicleState::new();
    s.speed = 42;
    s.gear_selector = 3;
    let text = s.summary();
    assert_eq!(
        text,
        "ignition:0 engine:0 indicator:0 fuel:0 warn:0 lights:0 high-beam:0 stop:0 \
         fixing-brake:0 stop-brake:0 doors:0 door1:0 door2:0 door3:0 door4:0 speed:42 \
         max-speed:0 battery-light:0 door-enable:0 gear-selector:3  \n"
    );
}
