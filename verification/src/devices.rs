//! The throttle/confirmation gate: one record per configured device,
//! owned and mutated only by the dispatch loop.
//!
//! `try_update` answers "should this reading be forwarded now?" without
//! touching any state; `update` records that the broker confirmed a
//! publish, which is the only thing that arms the throttle window.

use std::collections::HashMap;

use vstd::prelude::*;

use crate::config::Device;
use crate::ruuvi::BDAddr;

verus! {

broadcast use vstd::std_specs::hash::group_hash_axioms;

/// The registry: per-device throttle records and the shared throttle
/// interval (milliseconds; zero disables throttling).
pub struct Devices {
    devices: HashMap<u64, DeviceData>,
    throttle: u64,
}

/// One device's record: its descriptor and the time of the last
/// confirmed publish, unset until a confirmation arrives.
pub struct DeviceData {
    pub data: Device,
    pub last_updated: Option<u64>,
}

/// What the throttle gate decides for one reading.
#[derive(Debug)]
pub enum TryUpdate<T> {
    /// Forward the reading now.
    Update(T),
    /// Drop the reading: a full interval has not yet passed since the
    /// last confirmed publish.
    Throttle(T),
    /// The identity is not configured; drop the reading.
    UnknownDevice,
}

impl DeviceData {
    /// A fresh record: no publish has been confirmed yet.
    pub fn new(data: &Device) -> (r: DeviceData)
        ensures
            r == (DeviceData { data: *data, last_updated: None }),
    {
        DeviceData { data: data.duplicate(), last_updated: None }
    }

    /// The record with the same descriptor and the confirmation time set;
    /// used to state what `Devices::update` does.
    pub open spec fn with_confirmed(self, now: u64) -> DeviceData {
        DeviceData { data: self.data, last_updated: Some(now) }
    }

    pub fn last_updated(&self) -> (r: &Option<u64>)
        ensures
            *r == self.last_updated,
    {
        &self.last_updated
    }

    /// Records a confirmed publish at `now`.
    pub fn update(&mut self, now: u64)
        ensures
            *final(self) == old(self).with_confirmed(now),
    {
        self.last_updated = Some(now);
    }

    pub fn data(&self) -> (r: Device)
        ensures
            r == self.data,
    {
        self.data.duplicate()
    }
}

/// Whether the throttle window lets a reading through at `now`, given the
/// last confirmed publish: open when throttling is disabled, when nothing
/// was confirmed yet, or when a full interval has passed since the last
/// confirmation.
pub open spec fn window_open(last: Option<u64>, throttle: u64, now: u64) -> bool {
    ||| throttle == 0
    ||| last is None
    ||| now >= last->0 + throttle
}

/// What the throttle gate decides for a known record, as given by `window_open`.
pub open spec fn record_decision(d: DeviceData, throttle: u64, now: u64) -> TryUpdate<Device> {
    if window_open(d.last_updated, throttle, now) {
        TryUpdate::Update(d.data)
    } else {
        TryUpdate::Throttle(d.data)
    }
}

/// What the throttle gate decides, as a function of the registry contents alone.
pub open spec fn decision_in(
    m: Map<u64, DeviceData>,
    throttle: u64,
    a: BDAddr,
    now: u64,
) -> TryUpdate<Device> {
    if !m.contains_key(a@) {
        TryUpdate::UnknownDevice
    } else {
        record_decision(m[a@], throttle, now)
    }
}

/// The registry contents after a confirmation for `a` at `now`: unchanged
/// when throttling is disabled or the identity is unknown, otherwise the
/// one record is re-armed.
pub open spec fn confirm_in(
    m: Map<u64, DeviceData>,
    throttle: u64,
    a: BDAddr,
    now: u64,
) -> Map<u64, DeviceData> {
    if throttle == 0 || !m.contains_key(a@) {
        m
    } else {
        m.insert(a@, m[a@].with_confirmed(now))
    }
}

impl Devices {
    /// The registry contents, keyed by the numeric device identity.
    pub closed spec fn map(self) -> Map<u64, DeviceData> {
        self.devices@
    }

    pub closed spec fn throttle_ms(self) -> u64 {
        self.throttle
    }

    pub open spec fn known(self, a: BDAddr) -> bool {
        self.map().contains_key(a@)
    }

    /// What the throttle gate decides for identity `a` at time `now`.
    pub open spec fn spec_decision(self, a: BDAddr, now: u64) -> TryUpdate<Device> {
        decision_in(self.map(), self.throttle_ms(), a, now)
    }

    /// Builds the registry from the configured devices; a record starts
    /// with no confirmed publish. With a duplicated identity the last
    /// entry wins, as in a keyed configuration map.
    pub fn new(devices: &Vec<(BDAddr, Device)>, throttle: u64) -> (r: Devices)
        ensures
            r.map() == registry_of(devices@),
            r.throttle_ms() == throttle,
    {
        let mut map: HashMap<u64, DeviceData> = HashMap::new();
        let mut i: usize = 0;
        while i < devices.len()
            invariant
                i <= devices@.len(),
                map@ == registry_of(devices@.take(i as int)),
            decreases devices@.len() - i,
        {
            let entry = &devices[i];
            map.insert(entry.0.key(), DeviceData::new(&entry.1));
            i = i + 1;
            proof {
                assert(devices@.take(i as int).drop_last() =~= devices@.take(i as int - 1));
                assert(devices@.take(i as int).last() == devices@[i as int - 1]);
            }
        }
        proof {
            assert(devices@.take(devices@.len() as int) =~= devices@);
        }
        Devices { devices: map, throttle }
    }

    /// Answers whether a reading for `a` should be forwarded at `now`.
    /// Read-only: observing a reading never arms the throttle window.
    pub fn try_update(&mut self, device_id: &BDAddr, now: u64) -> (r: TryUpdate<Device>)
        ensures
            r == old(self).spec_decision(*device_id, now),
            *final(self) == *old(self),
    {
        let key = device_id.key();
        match self.devices.get(&key) {
            None => TryUpdate::UnknownDevice,
            Some(device) => {
                let device_data = device.data();
                match device.last_updated() {
                    None => TryUpdate::Update(device_data),
                    Some(last) => {
                        if self.throttle != 0 && (now < *last || now - *last < self.throttle) {
                            TryUpdate::Throttle(device_data)
                        } else {
                            TryUpdate::Update(device_data)
                        }
                    },
                }
            },
        }
    }

    /// Records a broker confirmation for `a` at `now` and returns the
    /// device's descriptor; does nothing when throttling is disabled or
    /// the identity is unknown.
    pub fn update(&mut self, device_id: &BDAddr, now: u64) -> (r: Option<Device>)
        ensures
            final(self).map() == confirm_in(old(self).map(), old(self).throttle_ms(), *device_id, now),
            final(self).throttle_ms() == old(self).throttle_ms(),
            r == (if old(self).throttle_ms() != 0 && old(self).known(*device_id) {
                Some(old(self).map()[device_id@].data)
            } else {
                Option::<Device>::None
            }),
    {
        if self.throttle == 0 {
            return None;
        }
        let key = device_id.key();
        let found = match self.devices.get(&key) {
            None => None,
            Some(device) => Some(device.data()),
        };
        match found {
            None => None,
            Some(data) => {
                let mut record = DeviceData::new(&data);
                record.update(now);
                self.devices.insert(key, record);
                Some(data)
            },
        }
    }
}

/// An identity absent from the registry is answered `UnknownDevice` at
/// every time, whatever the records hold: history never makes an
/// unconfigured device known.
pub proof fn lemma_unknown_identity(m: Map<u64, DeviceData>, throttle: u64, a: BDAddr, now: u64)
    requires
        !m.contains_key(a@),
    ensures
        decision_in(m, throttle, a, now) is UnknownDevice,
{
}

/// With throttling disabled every reading for a known identity is
/// forwarded, and a confirmation changes nothing: no state is ever
/// recorded.
pub proof fn lemma_throttle_disabled(m: Map<u64, DeviceData>, a: BDAddr, now: u64)
    requires
        m.contains_key(a@),
    ensures
        decision_in(m, 0, a, now) == TryUpdate::Update(m[a@].data),
        confirm_in(m, 0, a, now) == m,
{
}

/// After a confirmation for `a` at time `c`, a reading arriving at or
/// after `c + throttle` is forwarded and one arriving strictly before is
/// suppressed.
pub proof fn lemma_confirm_then_evaluate(
    m: Map<u64, DeviceData>,
    throttle: u64,
    a: BDAddr,
    c: u64,
    t: u64,
)
    requires
        m.contains_key(a@),
        throttle > 0,
    ensures
        t >= c + throttle ==> decision_in(confirm_in(m, throttle, a, c), throttle, a, t)
            == TryUpdate::Update(m[a@].data),
        t < c + throttle ==> decision_in(confirm_in(m, throttle, a, c), throttle, a, t)
            == TryUpdate::Throttle(m[a@].data),
{
}

/// A burst of readings all falling strictly inside the window armed by a
/// confirmation at `c` is suppressed in full. Together with `try_update`
/// leaving the registry unchanged, this is why near-simultaneous local
/// readings collapse to at most one outbound publish per confirmed
/// interval.
pub proof fn lemma_burst_in_window_all_suppressed(
    m: Map<u64, DeviceData>,
    throttle: u64,
    a: BDAddr,
    c: u64,
    times: Seq<u64>,
)
    requires
        m.contains_key(a@),
        throttle > 0,
        m[a@].last_updated == Some(c),
        forall|i: int| 0 <= i < times.len() ==> times[i] < c + throttle,
    ensures
        forall|i: int|
            0 <= i < times.len() ==> decision_in(m, throttle, a, times[i]) == TryUpdate::Throttle(
                m[a@].data,
            ),
{
}

/// The closed loop in one statement: from an unarmed registry a reading
/// is forwarded; once the broker's echo confirms it at `c`, every further
/// reading arriving strictly within one interval of `c` is suppressed.
/// A burst thus collapses to one outbound publish per confirmed interval.
pub proof fn lemma_forward_then_confirm_collapses_burst(
    m: Map<u64, DeviceData>,
    throttle: u64,
    a: BDAddr,
    t1: u64,
    c: u64,
    times: Seq<u64>,
)
    requires
        m.contains_key(a@),
        throttle > 0,
        m[a@].last_updated is None,
        forall|i: int| 0 <= i < times.len() ==> times[i] < c + throttle,
    ensures
        decision_in(m, throttle, a, t1) == TryUpdate::Update(m[a@].data),
        forall|i: int|
            0 <= i < times.len() ==> decision_in(
                confirm_in(m, throttle, a, c),
                throttle,
                a,
                times[i],
            ) == TryUpdate::Throttle(m[a@].data),
{
    let armed = confirm_in(m, throttle, a, c);
    lemma_burst_in_window_all_suppressed(armed, throttle, a, c, times);
}

/// While no publish has ever been confirmed for `a`, every reading is
/// forwarded, however many arrive and however close together: only a
/// confirmation arms the window, never the forwarding decision itself.
pub proof fn lemma_unarmed_gate_always_forwards(
    m: Map<u64, DeviceData>,
    throttle: u64,
    a: BDAddr,
    now: u64,
)
    requires
        m.contains_key(a@),
        m[a@].last_updated is None,
    ensures
        decision_in(m, throttle, a, now) == TryUpdate::Update(m[a@].data),
{
}

/// The registry contents built from a configuration list: every listed
/// identity mapped to a fresh record, later entries winning.
pub open spec fn registry_of(devices: Seq<(BDAddr, Device)>) -> Map<u64, DeviceData>
    decreases devices.len(),
{
    if devices.len() == 0 {
        Map::empty()
    } else {
        registry_of(devices.drop_last()).insert(
            devices.last().0@,
            DeviceData { data: devices.last().1, last_updated: None },
        )
    }
}

} // verus!
