//! Discovery documents for the home-automation platform: one retained
//! document per configured device and measurement type, republished on
//! every broker (re)connect.
//!
//! Everything here is a pure function of the static configuration, which
//! is what makes the replay idempotent: however often the broker
//! reconnects, the same set is emitted.

use vstd::prelude::*;
use vstd::string::StringExecFns;

use crate::config;
use crate::mqtt::spec_state_topic;
use crate::mqtt::state_topic;
use crate::ruuvi::BDAddr;
use crate::ruuvi::spec_hex12;
use crate::ruuvi::spec_hex_colon;
use crate::text::snake_case;
use crate::text::snake_seq;
use crate::text::str_eq;

verus! {

/// One measurement type a device exposes: the discovery component it is
/// announced under and the presentation fields of its documents.
pub struct DeviceType {
    pub component: String,
    pub name: String,
    pub device_class: Option<String>,
    pub unit_of_measurement: Option<String>,
    pub entity_category: Option<String>,
    pub icon: Option<String>,
}

/// The abstract value of a `DeviceType`: its fields as character
/// sequences.
pub ghost struct DeviceTypeView {
    pub component: Seq<char>,
    pub name: Seq<char>,
    pub device_class: Option<Seq<char>>,
    pub unit_of_measurement: Option<Seq<char>>,
    pub entity_category: Option<Seq<char>>,
    pub icon: Option<Seq<char>>,
}

/// The view of an optional string.
pub open spec fn opt_view(o: Option<String>) -> Option<Seq<char>> {
    match o {
        Some(s) => Some(s@),
        None => None,
    }
}

impl View for DeviceType {
    type V = DeviceTypeView;

    open spec fn view(&self) -> DeviceTypeView {
        DeviceTypeView {
            component: self.component@,
            name: self.name@,
            device_class: opt_view(self.device_class),
            unit_of_measurement: opt_view(self.unit_of_measurement),
            entity_category: opt_view(self.entity_category),
            icon: opt_view(self.icon),
        }
    }
}

/// The six measurement types of a sensor device, in the order they are
/// announced.
pub open spec fn device_type_views() -> Seq<DeviceTypeView> {
    seq![
        DeviceTypeView {
            component: "sensor"@,
            name: "Temperature"@,
            device_class: Some("temperature"@),
            unit_of_measurement: Some("°C"@),
            entity_category: None,
            icon: None,
        },
        DeviceTypeView {
            component: "sensor"@,
            name: "Humidity"@,
            device_class: Some("humidity"@),
            unit_of_measurement: Some("%"@),
            entity_category: None,
            icon: None,
        },
        DeviceTypeView {
            component: "sensor"@,
            name: "Pressure"@,
            device_class: Some("pressure"@),
            unit_of_measurement: Some("hPa"@),
            entity_category: None,
            icon: None,
        },
        DeviceTypeView {
            component: "sensor"@,
            name: "Battery"@,
            device_class: None,
            unit_of_measurement: Some("V"@),
            entity_category: Some("diagnostic"@),
            icon: Some("mdi:battery"@),
        },
        DeviceTypeView {
            component: "binary_sensor"@,
            name: "Battery Low"@,
            device_class: Some("battery"@),
            unit_of_measurement: None,
            entity_category: Some("diagnostic"@),
            icon: None,
        },
        DeviceTypeView {
            component: "sensor"@,
            name: "TX Power"@,
            device_class: None,
            unit_of_measurement: Some("dBm"@),
            entity_category: Some("diagnostic"@),
            icon: Some("mdi:signal"@),
        },
    ]
}

impl DeviceType {
    /// The six measurement types, freshly built.
    pub fn all() -> (r: Vec<DeviceType>)
        ensures
            r@.len() == 6,
            forall|i: int| 0 <= i < 6 ==> (#[trigger] r@[i])@ == device_type_views()[i],
    {
        let mut types: Vec<DeviceType> = Vec::new();
        types.push(
            DeviceType {
                component: "sensor".to_owned(),
                name: "Temperature".to_owned(),
                device_class: Some("temperature".to_owned()),
                unit_of_measurement: Some("°C".to_owned()),
                entity_category: None,
                icon: None,
            },
        );
        types.push(
            DeviceType {
                component: "sensor".to_owned(),
                name: "Humidity".to_owned(),
                device_class: Some("humidity".to_owned()),
                unit_of_measurement: Some("%".to_owned()),
                entity_category: None,
                icon: None,
            },
        );
        types.push(
            DeviceType {
                component: "sensor".to_owned(),
                name: "Pressure".to_owned(),
                device_class: Some("pressure".to_owned()),
                unit_of_measurement: Some("hPa".to_owned()),
                entity_category: None,
                icon: None,
            },
        );
        types.push(
            DeviceType {
                component: "sensor".to_owned(),
                name: "Battery".to_owned(),
                device_class: None,
                unit_of_measurement: Some("V".to_owned()),
                entity_category: Some("diagnostic".to_owned()),
                icon: Some("mdi:battery".to_owned()),
            },
        );
        types.push(
            DeviceType {
                component: "binary_sensor".to_owned(),
                name: "Battery Low".to_owned(),
                device_class: Some("battery".to_owned()),
                unit_of_measurement: None,
                entity_category: Some("diagnostic".to_owned()),
                icon: None,
            },
        );
        types.push(
            DeviceType {
                component: "sensor".to_owned(),
                name: "TX Power".to_owned(),
                device_class: None,
                unit_of_measurement: Some("dBm".to_owned()),
                entity_category: Some("diagnostic".to_owned()),
                icon: Some("mdi:signal".to_owned()),
            },
        );
        proof {
            assert(types@[0]@ == device_type_views()[0]);
            assert(types@[1]@ == device_type_views()[1]);
            assert(types@[2]@ == device_type_views()[2]);
            assert(types@[3]@ == device_type_views()[3]);
            assert(types@[4]@ == device_type_views()[4]);
            assert(types@[5]@ == device_type_views()[5]);
        }
        types
    }

    /// An identical copy.
    pub fn duplicate(&self) -> (r: DeviceType)
        ensures
            r == *self,
    {
        DeviceType {
            component: self.component.clone(),
            name: self.name.clone(),
            device_class: clone_opt_string(&self.device_class),
            unit_of_measurement: clone_opt_string(&self.unit_of_measurement),
            entity_category: clone_opt_string(&self.entity_category),
            icon: clone_opt_string(&self.icon),
        }
    }
}

fn clone_opt_string(o: &Option<String>) -> (r: Option<String>)
    ensures
        r == *o,
{
    match o {
        None => None,
        Some(s) => Some(s.clone()),
    }
}

/// The extra payload fields of a binary-sensor document.
#[derive(Clone, Copy, Debug, PartialEq, Eq, Structural)]
pub struct PayloadInfo {
    pub payload_on: bool,
    pub payload_off: bool,
}

impl PayloadInfo {
    /// The payload fields a measurement type calls for: only a binary
    /// sensor announces its two payload values.
    pub fn from(device_type: &DeviceType) -> (r: Option<PayloadInfo>)
        ensures
            r == (if device_type@.component == "binary_sensor"@ {
                Some(PayloadInfo { payload_on: true, payload_off: false })
            } else {
                Option::<PayloadInfo>::None
            }),
    {
        if str_eq(device_type.component.as_str(), "binary_sensor") {
            Some(PayloadInfo { payload_on: true, payload_off: false })
        } else {
            None
        }
    }
}

/// The device block of a discovery document: how the platform groups the
/// document's entity under one piece of hardware.
pub struct DeviceInfo {
    pub name: String,
    pub identifiers: Vec<String>,
    pub manufacturer: String,
}

impl DeviceInfo {
    /// The device block for one configured device: its name, its address
    /// in the common colon presentation as the sole identifier, and the
    /// fixed manufacturer.
    pub fn new(name: String, bdaddr: BDAddr) -> (r: DeviceInfo)
        requires
            bdaddr.wf(),
        ensures
            r.name == name,
            r.identifiers@.len() == 1,
            r.identifiers@[0]@ == spec_hex_colon(bdaddr@),
            r.manufacturer@ == "Ruuvi"@,
    {
        let mut identifiers: Vec<String> = Vec::new();
        identifiers.push(bdaddr.to_string_delim());
        DeviceInfo { name, identifiers, manufacturer: "Ruuvi".to_owned() }
    }
}

/// One discovery document: the entity announced for one (device,
/// measurement type) pair, and the retained topic it is published to.
pub struct Device {
    pub name: String,
    pub unique_id: String,
    pub state_class: String,
    pub state_topic: String,
    pub json_attributes_topic: String,
    pub value_template: String,
    pub payload_info: Option<PayloadInfo>,
    pub device_type: DeviceType,
    pub device: DeviceInfo,
    pub bdaddr: BDAddr,
    pub topic: String,
}

/// What the discovery document for device (`dn`, `bits`) and measurement
/// type `j` says, under `base` as the state-topic base.
pub open spec fn doc_matches(doc: Device, dn: Seq<char>, bits: u64, j: int, base: Seq<char>) -> bool {
    let tv = device_type_views()[j];
    let id12 = spec_hex12(bits);
    let snake = snake_seq(tv.name);
    &&& doc.name@ == dn + " "@ + tv.name
    &&& doc.unique_id@ == "ruuvi_"@ + id12 + "_"@ + snake
    &&& doc.state_class@ == "measurement"@
    &&& doc.state_topic@ == spec_state_topic(base, bits)
    &&& doc.json_attributes_topic@ == spec_state_topic(base, bits)
    &&& doc.value_template@ == "{{ value_json."@ + snake + " }}"@
    &&& doc.payload_info == (if tv.component == "binary_sensor"@ {
        Some(PayloadInfo { payload_on: true, payload_off: false })
    } else {
        Option::<PayloadInfo>::None
    })
    &&& doc.device_type@ == tv
    &&& doc.device.name@ == dn
    &&& doc.device.identifiers@.len() == 1
    &&& doc.device.identifiers@[0]@ == spec_hex_colon(bits)
    &&& doc.device.manufacturer@ == "Ruuvi"@
    &&& doc.bdaddr@ == bits
    &&& doc.topic@ == "homeassistant/"@ + tv.component + "/ruuvi_"@ + id12 + "/"@ + snake
        + "/config"@
}

/// Whether `docs` is exactly the discovery set of `cfg`: one document
/// per configured device and measurement type, in configuration order.
pub open spec fn discovery_set_of(docs: Seq<Device>, cfg: config::Config) -> bool {
    &&& docs.len() == cfg.devices@.len() * 6
    &&& forall|i: int, j: int|
        0 <= i < cfg.devices@.len() && 0 <= j < 6 ==> doc_matches(
            #[trigger] docs[6 * i + j],
            cfg.devices@[i].1.name@,
            cfg.devices@[i].0@,
            j,
            cfg.mqtt.base_topic@,
        )
}

impl Device {
    /// Builds the full discovery set for the configuration: for every
    /// configured device, one document per measurement type.
    pub fn all(config: &config::Config) -> (r: Vec<Device>)
        requires
            config.wf(),
        ensures
            discovery_set_of(r@, *config),
    {
        let mut docs: Vec<Device> = Vec::new();
        let types = DeviceType::all();
        let mut i: usize = 0;
        while i < config.devices.len()
            invariant
                config.wf(),
                i <= config.devices@.len(),
                types@.len() == 6,
                forall|k: int| 0 <= k < 6 ==> (#[trigger] types@[k])@ == device_type_views()[k],
                docs@.len() == 6 * i,
                forall|i2: int, j: int|
                    0 <= i2 < i && 0 <= j < 6 ==> doc_matches(
                        #[trigger] docs@[6 * i2 + j],
                        config.devices@[i2].1.name@,
                        config.devices@[i2].0@,
                        j,
                        config.mqtt.base_topic@,
                    ),
            decreases config.devices@.len() - i,
        {
            let entry = &config.devices[i];
            let id = entry.0.to_string_no_delim();
            let st = state_topic(config.mqtt.base_topic.as_str(), &entry.0);
            let mut j: usize = 0;
            while j < 6
                invariant
                    config.wf(),
                    i < config.devices@.len(),
                    *entry == config.devices@[i as int],
                    entry.0.wf(),
                    id@ == spec_hex12(entry.0@),
                    st@ == spec_state_topic(config.mqtt.base_topic@, entry.0@),
                    types@.len() == 6,
                    forall|k: int| 0 <= k < 6 ==> (#[trigger] types@[k])@ == device_type_views()[k],
                    j <= 6,
                    docs@.len() == 6 * i + j,
                    forall|i2: int, j2: int|
                        0 <= i2 < i && 0 <= j2 < 6 ==> doc_matches(
                            #[trigger] docs@[6 * i2 + j2],
                            config.devices@[i2].1.name@,
                            config.devices@[i2].0@,
                            j2,
                            config.mqtt.base_topic@,
                        ),
                    forall|j2: int|
                        0 <= j2 < j ==> doc_matches(
                            #[trigger] docs@[6 * (i as int) + j2],
                            config.devices@[i as int].1.name@,
                            config.devices@[i as int].0@,
                            j2,
                            config.mqtt.base_topic@,
                        ),
                decreases 6 - j,
            {
                let dt = &types[j];
                let snake = snake_case(dt.name.as_str());
                let doc = Device {
                    name: entry.1.name.clone().concat(" ").concat(dt.name.as_str()),
                    unique_id: "ruuvi_".to_owned().concat(id.as_str()).concat("_").concat(
                        snake.as_str(),
                    ),
                    state_class: "measurement".to_owned(),
                    state_topic: st.clone(),
                    json_attributes_topic: st.clone(),
                    value_template: "{{ value_json.".to_owned().concat(snake.as_str()).concat(
                        " }}",
                    ),
                    payload_info: PayloadInfo::from(dt),
                    device_type: dt.duplicate(),
                    device: DeviceInfo::new(entry.1.name.clone(), entry.0),
                    bdaddr: entry.0,
                    topic: "homeassistant/".to_owned().concat(dt.component.as_str()).concat(
                        "/ruuvi_",
                    ).concat(id.as_str()).concat("/").concat(snake.as_str()).concat("/config"),
                };
                docs.push(doc);
                j = j + 1;
                proof {
                    lemma_doc_built(
                        docs@.last(),
                        config.devices@[i as int].1.name@,
                        config.devices@[i as int].0@,
                        j as int - 1,
                        config.mqtt.base_topic@,
                    );
                    assert(forall|j2: int|
                        0 <= j2 < j ==> doc_matches(
                            #[trigger] docs@[6 * (i as int) + j2],
                            config.devices@[i as int].1.name@,
                            config.devices@[i as int].0@,
                            j2,
                            config.mqtt.base_topic@,
                        ));
                }
            }
            i = i + 1;
        }
        docs
    }

    /// The retained topic this document is published to.
    pub fn topic(&self) -> (r: String)
        ensures
            r@ == self.topic@,
    {
        self.topic.clone()
    }
}

/// The fields `doc_matches` constrains are equal between `d1` and `d2`:
/// the two documents say the same thing.
pub open spec fn docs_agree(d1: Device, d2: Device) -> bool {
    &&& d1.name@ == d2.name@
    &&& d1.unique_id@ == d2.unique_id@
    &&& d1.state_class@ == d2.state_class@
    &&& d1.state_topic@ == d2.state_topic@
    &&& d1.json_attributes_topic@ == d2.json_attributes_topic@
    &&& d1.value_template@ == d2.value_template@
    &&& d1.payload_info == d2.payload_info
    &&& d1.device_type@ == d2.device_type@
    &&& d1.device.name@ == d2.device.name@
    &&& d1.device.identifiers@.len() == d2.device.identifiers@.len()
    &&& d1.device.identifiers@.len() == 1 ==> d1.device.identifiers@[0]@
        == d2.device.identifiers@[0]@
    &&& d1.device.manufacturer@ == d2.device.manufacturer@
    &&& d1.bdaddr@ == d2.bdaddr@
    &&& d1.topic@ == d2.topic@
}

/// Replaying the discovery set is idempotent: any two sets built for the
/// same configuration — one per broker (re)connect — have the same
/// length and say the same thing document for document.
pub proof fn lemma_discovery_replay(d1: Seq<Device>, d2: Seq<Device>, cfg: config::Config)
    requires
        discovery_set_of(d1, cfg),
        discovery_set_of(d2, cfg),
    ensures
        d1.len() == d2.len(),
        forall|k: int| 0 <= k < d1.len() ==> docs_agree(#[trigger] d1[k], #[trigger] d2[k]),
{
    assert forall|k: int| 0 <= k < d1.len() implies docs_agree(#[trigger] d1[k], #[trigger] d2[k]) by {
        let i = k / 6;
        let j = k % 6;
        vstd::arithmetic::div_mod::lemma_fundamental_div_mod(k, 6);
        assert(0 <= j < 6 && 0 <= i < cfg.devices@.len() && k == 6 * i + j) by (nonlinear_arith)
            requires
                0 <= k < cfg.devices@.len() * 6,
                i == k / 6,
                j == k % 6,
                k == 6 * i + j,
        ;
        assert(doc_matches(d1[6 * i + j], cfg.devices@[i].1.name@, cfg.devices@[i].0@, j,
            cfg.mqtt.base_topic@));
        assert(doc_matches(d2[6 * i + j], cfg.devices@[i].1.name@, cfg.devices@[i].0@, j,
            cfg.mqtt.base_topic@));
    }
}

/// What the exec construction in `Device::all` establishes for one
/// document, restated over the specification values.
proof fn lemma_doc_built(doc: Device, dn: Seq<char>, bits: u64, j: int, base: Seq<char>)
    requires
        0 <= j < 6,
        doc.name@ == dn + " "@ + device_type_views()[j].name,
        doc.unique_id@ == "ruuvi_"@ + spec_hex12(bits) + "_"@ + snake_seq(
            device_type_views()[j].name,
        ),
        doc.state_class@ == "measurement"@,
        doc.state_topic@ == spec_state_topic(base, bits),
        doc.json_attributes_topic@ == spec_state_topic(base, bits),
        doc.value_template@ == "{{ value_json."@ + snake_seq(device_type_views()[j].name)
            + " }}"@,
        doc.payload_info == (if device_type_views()[j].component == "binary_sensor"@ {
            Some(PayloadInfo { payload_on: true, payload_off: false })
        } else {
            Option::<PayloadInfo>::None
        }),
        doc.device_type@ == device_type_views()[j],
        doc.device.name@ == dn,
        doc.device.identifiers@.len() == 1,
        doc.device.identifiers@[0]@ == spec_hex_colon(bits),
        doc.device.manufacturer@ == "Ruuvi"@,
        doc.bdaddr@ == bits,
        doc.topic@ == "homeassistant/"@ + device_type_views()[j].component + "/ruuvi_"@
            + spec_hex12(bits) + "/"@ + snake_seq(device_type_views()[j].name) + "/config"@,
    ensures
        doc_matches(doc, dn, bits, j, base),
{
}

} // verus!
