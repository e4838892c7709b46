//! Behaviour of the throttle/confirmation gate and the dispatch loop.

use ruuvi2mqtt::config::Device;
use ruuvi2mqtt::devices::{DeviceData, Devices, TryUpdate};
use ruuvi2mqtt::dispatch::{dispatch, Action, Event};
use ruuvi2mqtt::ruuvi::{BDAddr, SensorData};

fn addr() -> BDAddr {
    BDAddr::from_bytes([0xAA, 0xBB, 0xCC, 0xDD, 0xEE, 0xFF])
}

fn other_addr() -> BDAddr {
    BDAddr::from_bytes([0x11, 0x22, 0x33, 0x44, 0x55, 0x66])
}

fn registry(throttle_ms: u64) -> Devices {
    let devices = vec![(addr(), Device { name: "Kitchen".to_string() })];
    Devices::new(&devices, throttle_ms)
}

fn reading(a: BDAddr) -> SensorData {
    SensorData {
        bdaddr: a,
        temperature_millicelsius: Some(21_500),
        humidity_ppm: Some(450_000),
        pressure_pascals: Some(101_325),
        battery_millivolts: Some(2_900),
        tx_power_dbm: Some(4),
    }
}

/// The scenario: one device, throttle 60 s. A first reading is forwarded;
/// before any confirmation the window is not armed, so a second reading is
/// forwarded too. A confirmation at t=10 s arms the window: a reading at
/// t=65 s (55 s after the confirmation) is suppressed, one at t=71 s
/// (61 s after) is forwarded.
#[test]
fn scenario_throttle_sixty_seconds() {
    let mut devices = registry(60_000);
    let a = addr();

    match devices.try_update(&a, 0) {
        TryUpdate::Update(d) => assert_eq!(d.name, "Kitchen"),
        _ => panic!("first reading must be forwarded"),
    }
    // No confirmation yet: the window is not armed by forwarding alone.
    match devices.try_update(&a, 10_000) {
        TryUpdate::Update(_) => {}
        _ => panic!("an unarmed gate forwards"),
    }
    // The confirmation at t=10s arms the window.
    let confirmed = devices.update(&a, 10_000);
    assert_eq!(confirmed.map(|d| d.name), Some("Kitchen".to_string()));
    match devices.try_update(&a, 65_000) {
        TryUpdate::Throttle(d) => assert_eq!(d.name, "Kitchen"),
        _ => panic!("55s after the confirmation the reading is suppressed"),
    }
    match devices.try_update(&a, 71_000) {
        TryUpdate::Update(d) => assert_eq!(d.name, "Kitchen"),
        _ => panic!("61s after the confirmation the reading is forwarded"),
    }
}

/// A burst of readings inside an armed window is suppressed in full;
/// observing readings never changes the recorded state.
#[test]
fn burst_within_window_all_suppressed() {
    let mut devices = registry(60_000);
    let a = addr();
    devices.update(&a, 0);
    for t in [1_000u64, 2_000, 30_000, 59_999] {
        match devices.try_update(&a, t) {
            TryUpdate::Throttle(_) => {}
            _ => panic!("readings inside the window are suppressed"),
        }
    }
    match devices.try_update(&a, 60_000) {
        TryUpdate::Update(_) => {}
        _ => panic!("the window reopens exactly one interval later"),
    }
}

/// Without any confirmation the window is never armed: every reading is
/// forwarded, however many arrive.
#[test]
fn unarmed_gate_forwards_every_reading() {
    let mut devices = registry(60_000);
    let a = addr();
    for t in [0u64, 1, 2, 10, 100] {
        match devices.try_update(&a, t) {
            TryUpdate::Update(_) => {}
            _ => panic!("an unarmed gate forwards"),
        }
    }
}

/// With throttle zero every reading is forwarded and a confirmation
/// records nothing.
#[test]
fn throttle_zero_disables_gate() {
    let mut devices = registry(0);
    let a = addr();
    assert!(devices.update(&a, 5_000).is_none());
    for t in [0u64, 1, 5_000, 5_001] {
        match devices.try_update(&a, t) {
            TryUpdate::Update(d) => assert_eq!(d.name, "Kitchen"),
            _ => panic!("throttle zero always forwards"),
        }
    }
}

/// An identity absent from the registry is unknown, whatever happened
/// before.
#[test]
fn unknown_identity_is_always_unknown() {
    let mut devices = registry(60_000);
    let b = other_addr();
    assert!(matches!(devices.try_update(&b, 0), TryUpdate::UnknownDevice));
    assert!(devices.update(&b, 0).is_none());
    assert!(matches!(devices.try_update(&b, 100_000), TryUpdate::UnknownDevice));
}

/// A later confirmation re-arms the window from its own time.
#[test]
fn rearming_moves_the_window() {
    let mut devices = registry(60_000);
    let a = addr();
    devices.update(&a, 0);
    devices.update(&a, 50_000);
    match devices.try_update(&a, 60_000) {
        TryUpdate::Throttle(_) => {}
        _ => panic!("the window now runs from the second confirmation"),
    }
    match devices.try_update(&a, 110_000) {
        TryUpdate::Update(_) => {}
        _ => panic!("one interval after the second confirmation"),
    }
}

#[test]
fn device_data_records_confirmation() {
    let d = Device { name: "Sauna".to_string() };
    let mut record = DeviceData::new(&d);
    assert_eq!(*record.last_updated(), None);
    assert_eq!(record.data().name, "Sauna");
    record.update(42);
    assert_eq!(*record.last_updated(), Some(42));
    assert_eq!(record.data().name, "Sauna");
}

/// With a duplicated identity in the configuration the last entry wins.
#[test]
fn duplicate_identity_last_entry_wins() {
    let a = addr();
    let devices = vec![
        (a, Device { name: "First".to_string() }),
        (a, Device { name: "Second".to_string() }),
    ];
    let mut registry = Devices::new(&devices, 60_000);
    match registry.try_update(&a, 0) {
        TryUpdate::Update(d) => assert_eq!(d.name, "Second"),
        _ => panic!("the identity is configured"),
    }
}

#[test]
fn dispatch_connect_asks_for_discovery() {
    let mut devices = registry(60_000);
    assert!(matches!(dispatch(&mut devices, Event::MqttConnect, 0), Action::PublishDevices));
}

#[test]
fn dispatch_full_flow() {
    let mut devices = registry(60_000);
    let a = addr();

    match dispatch(&mut devices, Event::RuuviUpdate(reading(a)), 0) {
        Action::PublishSensorData { name, data } => {
            assert_eq!(name, "Kitchen");
            assert_eq!(data.bdaddr, a);
            assert_eq!(data.temperature_millicelsius, Some(21_500));
        }
        _ => panic!("the first reading is forwarded"),
    }
    match dispatch(&mut devices, Event::MqttDeviceUpdate(a), 1_000) {
        Action::Confirmed { name } => assert_eq!(name, "Kitchen"),
        _ => panic!("the echo confirms the publish"),
    }
    match dispatch(&mut devices, Event::RuuviUpdate(reading(a)), 30_000) {
        Action::Throttled { name } => assert_eq!(name, "Kitchen"),
        _ => panic!("a reading inside the window is suppressed"),
    }
    match dispatch(&mut devices, Event::RuuviUpdate(reading(a)), 61_000) {
        Action::PublishSensorData { .. } => {}
        _ => panic!("the window reopened"),
    }
    match dispatch(&mut devices, Event::RuuviUpdate(reading(other_addr())), 61_000) {
        Action::UnknownDevice => {}
        _ => panic!("an unconfigured identity is dropped"),
    }
}

#[test]
fn dispatch_confirmation_for_unknown_identity_is_ignored() {
    let mut devices = registry(60_000);
    assert!(matches!(
        dispatch(&mut devices, Event::MqttDeviceUpdate(other_addr()), 0),
        Action::Ignored
    ));
    let mut unthrottled = registry(0);
    assert!(matches!(
        dispatch(&mut unthrottled, Event::MqttDeviceUpdate(addr()), 0),
        Action::Ignored
    ));
}
