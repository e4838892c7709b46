//! Decoding of advertisement frames and the derived reading logic, plus
//! the configuration defaults.

use ruuvi2mqtt::config::{
    client_id_with_suffix, default_mqtt_base_topic, default_mqtt_client_id, default_mqtt_port,
    default_mqtt_throttle, fmt_secret, three_digits,
};
use ruuvi2mqtt::ruuvi::{debounce_delay_ms, BDAddr, SensorData};

/// A format-5 advertisement payload from the protocol specification,
/// prefixed with its version byte.
fn v5_frame() -> Vec<u8> {
    vec![
        0x05, 0x12, 0xFC, 0x53, 0x94, 0xC3, 0x7C, 0x00, 0x04, 0xFF, 0xFC, 0x04, 0x0C, 0xAC, 0x36,
        0x42, 0x00, 0xCD, 0xCB, 0xB8, 0x33, 0x4C, 0x88, 0x4F,
    ]
}

#[test]
fn v5_frame_decodes_to_reading() {
    let data = SensorData::from_frame(0x0499, &v5_frame()).expect("a valid frame decodes");
    assert_eq!(data.bdaddr, BDAddr::from_bytes([0xCB, 0xB8, 0x33, 0x4C, 0x88, 0x4F]));
    assert_eq!(data.temperature(), Some(24_300));
    assert_eq!(data.humidity(), Some(534_900));
    assert_eq!(data.pressure(), Some(100_044));
    assert_eq!(data.battery(), Some(2_977));
    assert_eq!(data.tx_power(), Some(4));
    assert_eq!(data.battery_low(), Some(false));
}

#[test]
fn foreign_manufacturer_is_skipped() {
    assert!(SensorData::from_frame(0x0499, &vec![0x07, 0x17, 0x01]).is_none());
    assert!(SensorData::from_frame(0x1234, &v5_frame()).is_none());
    assert!(SensorData::from_frame(0x0499, &Vec::new()).is_none());
}

fn reading(mc: Option<i32>, mv: Option<u16>) -> SensorData {
    SensorData {
        bdaddr: BDAddr::from_bytes([0xAA, 0xBB, 0xCC, 0xDD, 0xEE, 0xFF]),
        temperature_millicelsius: mc,
        humidity_ppm: None,
        pressure_pascals: None,
        battery_millivolts: mv,
        tx_power_dbm: None,
    }
}

#[test]
fn battery_low_thresholds_follow_temperature() {
    // Below -20 degrees a cell under 2.0 V is low.
    assert_eq!(reading(Some(-20_000), Some(1_999)).battery_low(), Some(true));
    assert_eq!(reading(Some(-20_000), Some(2_000)).battery_low(), Some(false));
    // Between -20 and 0 degrees the threshold is 2.3 V.
    assert_eq!(reading(Some(-10_000), Some(2_299)).battery_low(), Some(true));
    assert_eq!(reading(Some(-10_000), Some(2_300)).battery_low(), Some(false));
    // At or above 0 degrees the threshold is 2.5 V.
    assert_eq!(reading(Some(0), Some(2_499)).battery_low(), Some(true));
    assert_eq!(reading(Some(0), Some(2_500)).battery_low(), Some(false));
    assert_eq!(reading(Some(21_000), Some(2_499)).battery_low(), Some(true));
}

#[test]
fn battery_low_needs_both_quantities() {
    assert_eq!(reading(None, Some(1_000)).battery_low(), None);
    assert_eq!(reading(Some(5_000), None).battery_low(), None);
    assert_eq!(reading(None, None).battery_low(), None);
}

#[test]
fn debounce_uses_configured_delay() {
    assert_eq!(debounce_delay_ms(250), 250);
    assert_eq!(debounce_delay_ms(600), 600);
}

#[test]
fn debounce_substitutes_small_random_delay() {
    for _ in 0..20 {
        assert!(debounce_delay_ms(0) < 500);
    }
}

#[test]
fn defaults_match_the_documented_values() {
    assert_eq!(default_mqtt_port(), 1883);
    assert_eq!(default_mqtt_base_topic(), "ruuvi2mqtt");
    for _ in 0..20 {
        let throttle = default_mqtt_throttle();
        assert!((50_000..70_000).contains(&throttle));
        assert_eq!(throttle % 1000, 0);
    }
}

#[test]
fn client_id_is_prefixed() {
    assert_eq!(client_id_with_suffix("host"), "ruuvi2mqtt_host");
    assert_eq!(client_id_with_suffix(""), "ruuvi2mqtt_");
    assert!(default_mqtt_client_id().starts_with("ruuvi2mqtt_"));
}

#[test]
fn three_digit_suffix_is_zero_padded() {
    assert_eq!(three_digits(0), "000");
    assert_eq!(three_digits(7), "007");
    assert_eq!(three_digits(42), "042");
    assert_eq!(three_digits(255), "255");
}

#[test]
fn secrets_are_redacted() {
    assert_eq!(fmt_secret(None), "None");
    let secret = "hunter".to_string();
    assert_eq!(fmt_secret(Some(&secret)), "Some(<REDACTED>)");
}
