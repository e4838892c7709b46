//! The discovery documents emitted on every broker (re)connect.

use ruuvi2mqtt::config::{Config, Device as ConfigDevice, Mqtt};
use ruuvi2mqtt::homeassistant::{Device, DeviceInfo, DeviceType, PayloadInfo};
use ruuvi2mqtt::ruuvi::BDAddr;
use ruuvi2mqtt::text::snake_case;

fn addr() -> BDAddr {
    BDAddr::from_bytes([0xAA, 0xBB, 0xCC, 0xDD, 0xEE, 0xFF])
}

fn config() -> Config {
    Config {
        mqtt: Mqtt {
            server: "broker.local".to_string(),
            port: 1883,
            user: None,
            password: None,
            client_id: "ruuvi2mqtt_test".to_string(),
            throttle_ms: 60_000,
            base_topic: "ruuvi2mqtt".to_string(),
        },
        devices: vec![(addr(), ConfigDevice { name: "Kitchen".to_string() })],
    }
}

#[test]
fn six_measurement_types_in_order() {
    let types = DeviceType::all();
    let names: Vec<String> = types.iter().map(|t| t.name.clone()).collect();
    assert_eq!(
        names,
        vec!["Temperature", "Humidity", "Pressure", "Battery", "Battery Low", "TX Power"]
    );
    assert_eq!(types[0].component, "sensor");
    assert_eq!(types[0].device_class.as_deref(), Some("temperature"));
    assert_eq!(types[0].unit_of_measurement.as_deref(), Some("°C"));
    assert_eq!(types[3].entity_category.as_deref(), Some("diagnostic"));
    assert_eq!(types[3].icon.as_deref(), Some("mdi:battery"));
    assert_eq!(types[4].component, "binary_sensor");
    assert_eq!(types[5].unit_of_measurement.as_deref(), Some("dBm"));
}

#[test]
fn payload_info_only_for_binary_sensors() {
    let types = DeviceType::all();
    for (i, t) in types.iter().enumerate() {
        let p = PayloadInfo::from(t);
        if i == 4 {
            assert_eq!(p, Some(PayloadInfo { payload_on: true, payload_off: false }));
        } else {
            assert_eq!(p, None);
        }
    }
}

#[test]
fn names_fold_to_topic_identifiers() {
    assert_eq!(snake_case("Temperature"), "temperature");
    assert_eq!(snake_case("Battery Low"), "battery_low");
    assert_eq!(snake_case("TX Power"), "tx_power");
    assert_eq!(snake_case(""), "");
}

#[test]
fn one_document_per_device_and_type() {
    let cfg = config();
    let docs = Device::all(&cfg);
    assert_eq!(docs.len(), 6);

    let temperature = &docs[0];
    assert_eq!(temperature.name, "Kitchen Temperature");
    assert_eq!(temperature.unique_id, "ruuvi_aabbccddeeff_temperature");
    assert_eq!(temperature.state_class, "measurement");
    assert_eq!(temperature.state_topic, "ruuvi2mqtt/aabbccddeeff");
    assert_eq!(temperature.json_attributes_topic, "ruuvi2mqtt/aabbccddeeff");
    assert_eq!(temperature.value_template, "{{ value_json.temperature }}");
    assert_eq!(temperature.payload_info, None);
    assert_eq!(
        temperature.topic(),
        "homeassistant/sensor/ruuvi_aabbccddeeff/temperature/config"
    );
    assert_eq!(temperature.device.name, "Kitchen");
    assert_eq!(temperature.device.identifiers, vec!["AA:BB:CC:DD:EE:FF".to_string()]);
    assert_eq!(temperature.device.manufacturer, "Ruuvi");
    assert_eq!(temperature.bdaddr, addr());

    let battery_low = &docs[4];
    assert_eq!(battery_low.name, "Kitchen Battery Low");
    assert_eq!(
        battery_low.topic(),
        "homeassistant/binary_sensor/ruuvi_aabbccddeeff/battery_low/config"
    );
    assert_eq!(
        battery_low.payload_info,
        Some(PayloadInfo { payload_on: true, payload_off: false })
    );

    let tx_power = &docs[5];
    assert_eq!(tx_power.unique_id, "ruuvi_aabbccddeeff_tx_power");
}

/// Replaying the set after another reconnect emits the same documents.
#[test]
fn discovery_replay_is_idempotent() {
    let cfg = config();
    let first = Device::all(&cfg);
    let second = Device::all(&cfg);
    assert_eq!(first.len(), second.len());
    for (a, b) in first.iter().zip(second.iter()) {
        assert_eq!(a.name, b.name);
        assert_eq!(a.unique_id, b.unique_id);
        assert_eq!(a.topic(), b.topic());
        assert_eq!(a.state_topic, b.state_topic);
        assert_eq!(a.payload_info, b.payload_info);
    }
}

#[test]
fn two_devices_give_twelve_documents() {
    let mut cfg = config();
    cfg.devices.push((
        BDAddr::from_bytes([0x11, 0x22, 0x33, 0x44, 0x55, 0x66]),
        ConfigDevice { name: "Sauna".to_string() },
    ));
    let docs = Device::all(&cfg);
    assert_eq!(docs.len(), 12);
    assert_eq!(docs[6].name, "Sauna Temperature");
    assert_eq!(docs[6].state_topic, "ruuvi2mqtt/112233445566");
}

#[test]
fn no_devices_no_documents() {
    let mut cfg = config();
    cfg.devices.clear();
    assert_eq!(Device::all(&cfg).len(), 0);
}

#[test]
fn device_info_carries_identifier() {
    let info = DeviceInfo::new("Kitchen".to_string(), addr());
    assert_eq!(info.name, "Kitchen");
    assert_eq!(info.identifiers, vec!["AA:BB:CC:DD:EE:FF".to_string()]);
    assert_eq!(info.manufacturer, "Ruuvi");
}
