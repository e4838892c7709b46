//! The dispatch loop's decision: the single consumer of the event queue,
//! sole owner of the throttle gate, deciding per event what the broker
//! session is asked to do.
//!
//! The loop itself (queue receive, publishing, logging) runs outside the
//! library; it performs the returned action and nothing else.

use vstd::prelude::*;

use crate::devices::Devices;
use crate::devices::TryUpdate;
use crate::devices::confirm_in;
use crate::ruuvi::BDAddr;
use crate::ruuvi::SensorData;

verus! {

/// The sole unit of cross-component communication: what the producers
/// put on the event queue.
#[derive(Debug)]
pub enum Event {
    /// The scan listener decoded a reading.
    RuuviUpdate(SensorData),
    /// A message on a device's state topic was echoed back: the broker
    /// confirmed that the device's state was written.
    MqttDeviceUpdate(BDAddr),
    /// The broker acknowledged a (re)connection.
    MqttConnect,
}

/// What the dispatch loop asks its surroundings to do for one event.
#[derive(Debug)]
pub enum Action {
    /// Republish the full discovery set; safe to repeat after every
    /// reconnect.
    PublishDevices,
    /// Forward the reading: publish it on the device's state topic.
    PublishSensorData { name: String, data: SensorData },
    /// A confirmation armed the device's throttle window.
    Confirmed { name: String },
    /// A confirmation that recorded nothing: throttling is disabled or
    /// the identity is unknown.
    Ignored,
    /// The reading was suppressed: the throttle window has not passed.
    Throttled { name: String },
    /// The reading came from an identity that is not configured.
    UnknownDevice,
}

/// Decides one event. Only a confirmation mutates the registry; readings
/// and reconnects leave it untouched.
pub fn dispatch(devices: &mut Devices, event: Event, now: u64) -> (act: Action)
    ensures
        final(devices).throttle_ms() == old(devices).throttle_ms(),
        event is MqttConnect ==> act is PublishDevices && final(devices).map() == old(
            devices,
        ).map(),
        event matches Event::RuuviUpdate(data) ==> (final(devices).map() == old(devices).map()
            && match old(devices).spec_decision(data.bdaddr, now) {
            TryUpdate::Update(d) => act matches Action::PublishSensorData { name, data: sd }
                && name == d.name && sd == data,
            TryUpdate::Throttle(d) => act matches Action::Throttled { name } && name == d.name,
            TryUpdate::UnknownDevice => act is UnknownDevice,
        }),
        event matches Event::MqttDeviceUpdate(a) ==> (final(devices).map() == confirm_in(
            old(devices).map(),
            old(devices).throttle_ms(),
            a,
            now,
        ) && (if old(devices).throttle_ms() != 0 && old(devices).known(a) {
            act matches Action::Confirmed { name } && name == old(devices).map()[a@].data.name
        } else {
            act is Ignored
        })),
{
    match event {
        Event::MqttConnect => Action::PublishDevices,
        Event::MqttDeviceUpdate(bdaddr) => match devices.update(&bdaddr, now) {
            Some(device) => Action::Confirmed { name: device.name },
            None => Action::Ignored,
        },
        Event::RuuviUpdate(sensor) => match devices.try_update(&sensor.bdaddr, now) {
            TryUpdate::UnknownDevice => Action::UnknownDevice,
            TryUpdate::Throttle(device) => Action::Throttled { name: device.name },
            TryUpdate::Update(device) => Action::PublishSensorData {
                name: device.name,
                data: sensor,
            },
        },
    }
}

} // verus!
