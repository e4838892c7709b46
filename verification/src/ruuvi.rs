//! Sensor-side types: the hardware address used as device identity, and
//! the decoded sensor reading.
//!
//! An address is 48 bits. On the broker's state topic it appears as twelve
//! lower-case hex digits with no delimiters; both parse and format are
//! verified against the same nibble-by-nibble specification, which gives
//! the round-trip law the echo handling relies on.

use ruuvi_sensor_protocol::BatteryPotential;
use ruuvi_sensor_protocol::Humidity;
use ruuvi_sensor_protocol::MacAddress;
use ruuvi_sensor_protocol::Pressure;
use ruuvi_sensor_protocol::Temperature;
use ruuvi_sensor_protocol::TransmitterPower;
use vstd::prelude::*;

use crate::text::push_char;

verus! {

/// A 48-bit hardware address identifying one sensor device.
#[derive(Clone, Copy, Debug, PartialEq, Eq, Structural)]
pub struct BDAddr {
    bits: u64,
}

/// Hex digit for one nibble value (0..16), lower case.
pub open spec fn spec_hex_char(n: u64) -> char {
    if n < 10 {
        (('0' as u8) + n as u8) as char
    } else {
        (('a' as u8) + (n - 10) as u8) as char
    }
}

/// The nibble of `bits` that the hex digit at `sh` bits from the low end
/// stands for.
pub open spec fn nibble(bits: u64, sh: u64) -> u64 {
    (bits >> sh) & 0xf
}

/// The twelve-digit lower-case hex rendering of a 48-bit value, most
/// significant nibble first.
pub open spec fn spec_hex12(bits: u64) -> Seq<char> {
    seq![
        spec_hex_char(nibble(bits, 44)),
        spec_hex_char(nibble(bits, 40)),
        spec_hex_char(nibble(bits, 36)),
        spec_hex_char(nibble(bits, 32)),
        spec_hex_char(nibble(bits, 28)),
        spec_hex_char(nibble(bits, 24)),
        spec_hex_char(nibble(bits, 20)),
        spec_hex_char(nibble(bits, 16)),
        spec_hex_char(nibble(bits, 12)),
        spec_hex_char(nibble(bits, 8)),
        spec_hex_char(nibble(bits, 4)),
        spec_hex_char(nibble(bits, 0)),
    ]
}

/// Hex digit for one nibble value (0..16), upper case.
pub open spec fn spec_hex_char_upper(n: u64) -> char {
    if n < 10 {
        (('0' as u8) + n as u8) as char
    } else {
        (('A' as u8) + (n - 10) as u8) as char
    }
}

/// The common presentation of an address: upper-case hex byte pairs
/// separated by colons.
pub open spec fn spec_hex_colon(bits: u64) -> Seq<char> {
    seq![
        spec_hex_char_upper(nibble(bits, 44)),
        spec_hex_char_upper(nibble(bits, 40)),
        ':',
        spec_hex_char_upper(nibble(bits, 36)),
        spec_hex_char_upper(nibble(bits, 32)),
        ':',
        spec_hex_char_upper(nibble(bits, 28)),
        spec_hex_char_upper(nibble(bits, 24)),
        ':',
        spec_hex_char_upper(nibble(bits, 20)),
        spec_hex_char_upper(nibble(bits, 16)),
        ':',
        spec_hex_char_upper(nibble(bits, 12)),
        spec_hex_char_upper(nibble(bits, 8)),
        ':',
        spec_hex_char_upper(nibble(bits, 4)),
        spec_hex_char_upper(nibble(bits, 0)),
    ]
}

/// Whether `c` is an ASCII hex digit (either case).
pub open spec fn is_hex_digit(c: char) -> bool {
    ('0' <= c && c <= '9') || ('a' <= c && c <= 'f') || ('A' <= c && c <= 'F')
}

/// The value of one hex digit.
pub open spec fn spec_hex_val(c: char) -> u64 {
    if '0' <= c && c <= '9' {
        (c as u8 - '0' as u8) as u64
    } else if 'a' <= c && c <= 'f' {
        (c as u8 - 'a' as u8 + 10) as u64
    } else {
        (c as u8 - 'A' as u8 + 10) as u64
    }
}

/// The 48-bit value that a sequence of twelve hex digits denotes.
pub open spec fn spec_parse_hex12(s: Seq<char>) -> u64
    recommends
        s.len() == 12,
{
    (spec_hex_val(s[0]) << 44) | (spec_hex_val(s[1]) << 40) | (spec_hex_val(s[2]) << 36) | (
    spec_hex_val(s[3]) << 32) | (spec_hex_val(s[4]) << 28) | (spec_hex_val(s[5]) << 24) | (
    spec_hex_val(s[6]) << 20) | (spec_hex_val(s[7]) << 16) | (spec_hex_val(s[8]) << 12) | (
    spec_hex_val(s[9]) << 8) | (spec_hex_val(s[10]) << 4) | spec_hex_val(s[11])
}

impl View for BDAddr {
    type V = u64;

    closed spec fn view(&self) -> u64 {
        self.bits
    }
}

impl BDAddr {
    /// A well-formed address fits in 48 bits.
    pub open spec fn wf(self) -> bool {
        self@ < 0x1000000000000
    }

    /// Builds an address from its six bytes, most significant first,
    /// as it appears in an advertisement.
    pub fn from_bytes(b: [u8; 6]) -> (r: BDAddr)
        ensures
            r@ == ((b[0] as u64) << 40) | ((b[1] as u64) << 32) | ((b[2] as u64) << 24) | ((
            b[3] as u64) << 16) | ((b[4] as u64) << 8) | (b[5] as u64),
            r.wf(),
    {
        let bits: u64 = ((b[0] as u64) << 40u64) | ((b[1] as u64) << 32u64) | ((b[2] as u64)
            << 24u64) | ((b[3] as u64) << 16u64) | ((b[4] as u64) << 8u64) | (b[5] as u64);
        proof {
            let b0 = b[0];
            let b1 = b[1];
            let b2 = b[2];
            let b3 = b[3];
            let b4 = b[4];
            let b5 = b[5];
            assert(((b0 as u64) << 40) | ((b1 as u64) << 32) | ((b2 as u64) << 24) | ((b3 as u64)
                << 16) | ((b4 as u64) << 8) | (b5 as u64) < 0x1000000000000) by (bit_vector);
        }
        BDAddr { bits }
    }

    /// Whether the address fits in 48 bits; every constructor of this
    /// type establishes it, so this is a runtime check for callers
    /// outside the verified library.
    pub fn is_wf(&self) -> (r: bool)
        ensures
            r == self.wf(),
    {
        self.bits < 0x1000000000000
    }

    /// The address as a number, for use as a registry key.
    pub fn key(&self) -> (r: u64)
        ensures
            r == self@,
    {
        self.bits
    }

    /// Renders the address as twelve lower-case hex digits without
    /// delimiters, the form used in state topics and entity identifiers.
    pub fn to_string_no_delim(&self) -> (r: String)
        requires
            self.wf(),
        ensures
            r@ == spec_hex12(self@),
    {
        let mut out = String::new();
        let mut sh: u64 = 48;
        while sh > 0
            invariant
                sh % 4 == 0,
                sh <= 48,
                out@ == spec_hex12(self@).take(((48 - sh) / 4) as int),
            decreases sh,
        {
            sh = sh - 4;
            let b: u64 = self.bits;
            let n: u64 = (b >> sh) & 0xf;
            proof {
                assert((b >> sh) & 0xf < 16) by (bit_vector);
            }
            let c: char = hex_char(n);
            push_char(&mut out, c);
            proof {
                let i: int = ((48 - sh) / 4) as int - 1;
                assert(spec_hex12(self@)[i] == spec_hex_char(nibble(self@, sh)));
                assert(out@ =~= spec_hex12(self@).take(i + 1));
            }
        }
        proof {
            assert(out@ =~= spec_hex12(self@));
        }
        out
    }

    /// Renders the address in the common presentation: byte pairs of
    /// upper-case hex separated by colons.
    pub fn to_string_delim(&self) -> (r: String)
        requires
            self.wf(),
        ensures
            r@ == spec_hex_colon(self@),
    {
        let b: u64 = self.bits;
        let mut out = String::new();
        let mut sh: u64 = 48;
        let mut k: u64 = 0;
        while k < 6
            invariant
                sh == 48 - 8 * k,
                k <= 6,
                b == self@,
                k < 6 ==> out@ == spec_hex_colon(self@).take(3 * k as int),
                k == 6 ==> out@ == spec_hex_colon(self@),
            decreases 6 - k,
        {
            let hi: u64 = (b >> (sh - 4)) & 0xf;
            let lo: u64 = (b >> (sh - 8)) & 0xf;
            proof {
                let s4 = (sh - 4) as u64;
                let s8 = (sh - 8) as u64;
                assert((b >> s4) & 0xf < 16 && (b >> s8) & 0xf < 16) by (bit_vector);
            }
            push_char(&mut out, hex_char_upper(hi));
            push_char(&mut out, hex_char_upper(lo));
            if k < 5 {
                push_char(&mut out, ':');
            }
            sh = sh - 8;
            k = k + 1;
            proof {
                if k < 6 {
                    assert(out@ =~= spec_hex_colon(self@).take(3 * k as int));
                } else {
                    assert(out@ =~= spec_hex_colon(self@).take(17));
                }
            }
        }
        proof {
            assert(out@ =~= spec_hex_colon(self@));
        }
        out
    }

    /// Parses twelve hex digits (either case, no delimiters) into an
    /// address; any other input is rejected.
    pub fn from_str_no_delim(s: &str) -> (r: Option<BDAddr>)
        ensures
            match r {
                Some(a) => s@.len() == 12 && (forall|i: int| 0 <= i < 12 ==> is_hex_digit(s@[i]))
                    && a@ == spec_parse_hex12(s@) && a.wf(),
                None => !(s@.len() == 12 && (forall|i: int|
                    0 <= i < 12 ==> is_hex_digit(s@[i]))),
            },
    {
        let len: usize = s.unicode_len();
        if len != 12 {
            return None;
        }
        let mut bits: u64 = 0;
        let mut i: usize = 0;
        while i < 12
            invariant
                s@.len() == 12,
                i <= 12,
                forall|j: int| 0 <= j < i ==> is_hex_digit(s@[j]),
                bits == spec_parse_prefix(s@, i as int),
            decreases 12 - i,
        {
            let c = s.get_char(i);
            let v: u64 = match hex_val(c) {
                Some(v) => v,
                None => {
                    return None;
                },
            };
            bits = (bits << 4u64) | v;
            i = i + 1;
            proof {
                lemma_parse_prefix_step(s@, i as int - 1);
            }
        }
        proof {
            lemma_parse_prefix_full(s@);
            let b = bits;
            assert(b < (1u64 << 48) ==> b < 0x1000000000000) by (bit_vector);
        }
        Some(BDAddr { bits })
    }
}

/// The value of the first `n` hex digits of `s`, accumulated high-first.
pub open spec fn spec_parse_prefix(s: Seq<char>, n: int) -> u64
    decreases n,
{
    if n <= 0 {
        0
    } else {
        (spec_parse_prefix(s, n - 1) << 4) | (spec_hex_val(s[n - 1]) % 16)
    }
}

proof fn lemma_parse_prefix_step(s: Seq<char>, n: int)
    requires
        0 <= n,
        spec_hex_val(s[n]) < 16,
    ensures
        spec_parse_prefix(s, n + 1) == (spec_parse_prefix(s, n) << 4) | spec_hex_val(s[n]),
{
    let v = spec_hex_val(s[n]);
    assert(v < 16 ==> v % 16 == v) by (bit_vector);
}

proof fn lemma_parse_prefix_full(s: Seq<char>)
    requires
        s.len() == 12,
        forall|i: int| 0 <= i < 12 ==> is_hex_digit(s[i]),
    ensures
        spec_parse_prefix(s, 12) == spec_parse_hex12(s),
        spec_parse_prefix(s, 12) < (1u64 << 48),
{
    let v0 = spec_hex_val(s[0]);
    let v1 = spec_hex_val(s[1]);
    let v2 = spec_hex_val(s[2]);
    let v3 = spec_hex_val(s[3]);
    let v4 = spec_hex_val(s[4]);
    let v5 = spec_hex_val(s[5]);
    let v6 = spec_hex_val(s[6]);
    let v7 = spec_hex_val(s[7]);
    let v8 = spec_hex_val(s[8]);
    let v9 = spec_hex_val(s[9]);
    let v10 = spec_hex_val(s[10]);
    let v11 = spec_hex_val(s[11]);
    assert forall|i: int| 0 <= i < 12 implies spec_hex_val(s[i]) < 16 by {
        lemma_hex_val_bound(s[i]);
    }
    let a0 = spec_parse_prefix(s, 1);
    let a1 = spec_parse_prefix(s, 2);
    let a2 = spec_parse_prefix(s, 3);
    let a3 = spec_parse_prefix(s, 4);
    let a4 = spec_parse_prefix(s, 5);
    let a5 = spec_parse_prefix(s, 6);
    let a6 = spec_parse_prefix(s, 7);
    let a7 = spec_parse_prefix(s, 8);
    let a8 = spec_parse_prefix(s, 9);
    let a9 = spec_parse_prefix(s, 10);
    let a10 = spec_parse_prefix(s, 11);
    let a11 = spec_parse_prefix(s, 12);
    assert(spec_parse_prefix(s, 0) == 0);
    assert(a0 == (0u64 << 4) | (v0 % 16));
    assert(a1 == (a0 << 4) | (v1 % 16));
    assert(a2 == (a1 << 4) | (v2 % 16));
    assert(a3 == (a2 << 4) | (v3 % 16));
    assert(a4 == (a3 << 4) | (v4 % 16));
    assert(a5 == (a4 << 4) | (v5 % 16));
    assert(a6 == (a5 << 4) | (v6 % 16));
    assert(a7 == (a6 << 4) | (v7 % 16));
    assert(a8 == (a7 << 4) | (v8 % 16));
    assert(a9 == (a8 << 4) | (v9 % 16));
    assert(a10 == (a9 << 4) | (v10 % 16));
    assert(a11 == (a10 << 4) | (v11 % 16));
    assert({
        &&& v0 < 16 && v1 < 16 && v2 < 16 && v3 < 16 && v4 < 16 && v5 < 16
        &&& v6 < 16 && v7 < 16 && v8 < 16 && v9 < 16 && v10 < 16 && v11 < 16
        &&& a0 == (0u64 << 4) | (v0 % 16)
        &&& a1 == (a0 << 4) | (v1 % 16)
        &&& a2 == (a1 << 4) | (v2 % 16)
        &&& a3 == (a2 << 4) | (v3 % 16)
        &&& a4 == (a3 << 4) | (v4 % 16)
        &&& a5 == (a4 << 4) | (v5 % 16)
        &&& a6 == (a5 << 4) | (v6 % 16)
        &&& a7 == (a6 << 4) | (v7 % 16)
        &&& a8 == (a7 << 4) | (v8 % 16)
        &&& a9 == (a8 << 4) | (v9 % 16)
        &&& a10 == (a9 << 4) | (v10 % 16)
        &&& a11 == (a10 << 4) | (v11 % 16)
    } ==> a11 == ((v0 << 44) | (v1 << 40) | (v2 << 36) | (v3 << 32) | (v4 << 28) | (v5 << 24) | (v6
        << 20) | (v7 << 16) | (v8 << 12) | (v9 << 8) | (v10 << 4) | v11) && a11 < (1u64 << 48))
        by (bit_vector);
}

proof fn lemma_hex_val_bound(c: char)
    requires
        is_hex_digit(c),
    ensures
        spec_hex_val(c) < 16,
{
}

/// Round trip: the no-delimiter rendering of a well-formed address parses
/// back to the same address. The echo handling relies on this: a state
/// topic the gateway itself published is always recognised.
pub proof fn lemma_hex12_round_trip(bits: u64)
    requires
        bits < 0x1000000000000,
    ensures
        spec_hex12(bits).len() == 12,
        forall|i: int| 0 <= i < 12 ==> is_hex_digit(#[trigger] spec_hex12(bits)[i]),
        spec_parse_hex12(spec_hex12(bits)) == bits,
{
    assert forall|sh: u64| sh < 48 implies {
        &&& is_hex_digit(spec_hex_char(nibble(bits, sh)))
        &&& spec_hex_val(spec_hex_char(nibble(bits, sh))) == nibble(bits, sh)
    } by {
        assert(nibble(bits, sh) < 16) by (bit_vector);
        lemma_hex_char_round_trip(nibble(bits, sh));
    }
    let b = bits;
    assert((((b >> 44) & 0xf) << 44) | (((b >> 40) & 0xf) << 40) | (((b >> 36) & 0xf) << 36) | (((b
        >> 32) & 0xf) << 32) | (((b >> 28) & 0xf) << 28) | (((b >> 24) & 0xf) << 24) | (((b >> 20)
        & 0xf) << 20) | (((b >> 16) & 0xf) << 16) | (((b >> 12) & 0xf) << 12) | (((b >> 8) & 0xf)
        << 8) | (((b >> 4) & 0xf) << 4) | ((b >> 0) & 0xf) == b) by (bit_vector)
        requires
            b < 0x1000000000000,
    ;
}

proof fn lemma_hex_char_round_trip(n: u64)
    requires
        n < 16,
    ensures
        is_hex_digit(spec_hex_char(n)),
        spec_hex_val(spec_hex_char(n)) == n,
{
}

/// Hex digit for a nibble, lower case.
fn hex_char(n: u64) -> (c: char)
    requires
        n < 16,
    ensures
        c == spec_hex_char(n),
{
    if n < 10 {
        (('0' as u8) + n as u8) as char
    } else {
        (('a' as u8) + (n - 10) as u8) as char
    }
}

/// The decoded reading of one advertisement: the device identity and the
/// physical quantities the frame carried, each optional. Quantities are
/// kept in the decoder's integer units; presentation (volts, degrees)
/// happens at the publishing edge.
#[derive(Clone, Copy, Debug)]
pub struct SensorData {
    pub bdaddr: BDAddr,
    /// Temperature in millidegrees Celsius.
    pub temperature_millicelsius: Option<i32>,
    /// Relative humidity in parts per million.
    pub humidity_ppm: Option<u32>,
    /// Pressure in pascals.
    pub pressure_pascals: Option<u32>,
    /// Battery potential in millivolts.
    pub battery_millivolts: Option<u16>,
    /// Transmitter power in dBm.
    pub tx_power_dbm: Option<i8>,
}

/// The low-battery rule on a reading that carries both a temperature and
/// a battery potential: the colder it is, the lower the potential a
/// healthy cell may show.
pub open spec fn spec_battery_low(mc: i32, mv: u16) -> bool {
    ||| mc <= -20000 && mv < 2000
    ||| -20000 < mc < 0 && mv < 2300
    ||| mc >= 0 && mv < 2500
}

impl SensorData {
    /// Reads every quantity of interest out of a decoded frame.
    pub fn new(bdaddr: BDAddr, values: &ruuvi_sensor_protocol::SensorValues) -> (r: SensorData)
        ensures
            r.bdaddr == bdaddr,
    {
        SensorData {
            bdaddr,
            temperature_millicelsius: values_temperature(values),
            humidity_ppm: values_humidity(values),
            pressure_pascals: values_pressure(values),
            battery_millivolts: values_battery(values),
            tx_power_dbm: values_tx_power(values),
        }
    }

    /// Decodes a manufacturer-specific advertisement into a reading:
    /// `Some` only when the frame parses as a sensor frame that carries
    /// its hardware address.
    pub fn from_frame(id: u16, data: &Vec<u8>) -> (r: Option<SensorData>)
        ensures
            r matches Some(d) ==> d.bdaddr.wf(),
    {
        let values = match decode_frame(id, data) {
            Some(v) => v,
            None => {
                return None;
            },
        };
        let mac = match values_mac(&values) {
            Some(m) => m,
            None => {
                return None;
            },
        };
        Some(SensorData::new(BDAddr::from_bytes(mac), &values))
    }

    /// Temperature in millidegrees Celsius, if the frame carried one.
    pub fn temperature(&self) -> (r: Option<i32>)
        ensures
            r == self.temperature_millicelsius,
    {
        self.temperature_millicelsius
    }

    /// Relative humidity in parts per million, if the frame carried one.
    pub fn humidity(&self) -> (r: Option<u32>)
        ensures
            r == self.humidity_ppm,
    {
        self.humidity_ppm
    }

    /// Pressure in pascals, if the frame carried one.
    pub fn pressure(&self) -> (r: Option<u32>)
        ensures
            r == self.pressure_pascals,
    {
        self.pressure_pascals
    }

    /// Battery potential in millivolts, if the frame carried one.
    pub fn battery(&self) -> (r: Option<u16>)
        ensures
            r == self.battery_millivolts,
    {
        self.battery_millivolts
    }

    /// Whether the battery is low for the current temperature; unknown
    /// unless the frame carried both quantities.
    pub fn battery_low(&self) -> (r: Option<bool>)
        ensures
            r == match (self.battery_millivolts, self.temperature_millicelsius) {
                (Some(mv), Some(mc)) => Some(spec_battery_low(mc, mv)),
                _ => Option::<bool>::None,
            },
    {
        let mv = match self.battery_millivolts {
            Some(mv) => mv,
            None => {
                return None;
            },
        };
        let mc = match self.temperature_millicelsius {
            Some(mc) => mc,
            None => {
                return None;
            },
        };
        Some(
            (mc <= -20000 && mv < 2000) || (-20000 < mc && mc < 0 && mv < 2300) || (mc >= 0 && mv
                < 2500),
        )
    }

    /// Transmitter power in dBm, if the frame carried one.
    pub fn tx_power(&self) -> (r: Option<i8>)
        ensures
            r == self.tx_power_dbm,
    {
        self.tx_power_dbm
    }
}

/// The delay inserted before a reading is forwarded to the queue, to
/// spread a radio burst's near-simultaneous notifications: the configured
/// delay, or, when that is zero, a small random one under half a second.
pub fn debounce_delay_ms(configured_ms: u64) -> (r: u64)
    ensures
        configured_ms != 0 ==> r == configured_ms,
        configured_ms == 0 ==> r < 500,
{
    if configured_ms == 0 {
        crate::config::random_in_range(0, 500)
    } else {
        configured_ms
    }
}

#[verifier::external_type_specification]
#[verifier::external_body]
pub struct ExSensorValues(ruuvi_sensor_protocol::SensorValues);

/// Relies on `SensorValues::from_manufacturer_specific_data`: decodes a
/// manufacturer-specific advertisement payload, failing on an unknown
/// manufacturer id, an unsupported format or malformed data.
#[verifier::external_body]
fn decode_frame(id: u16, data: &Vec<u8>) -> (r: Option<ruuvi_sensor_protocol::SensorValues>) {
    ruuvi_sensor_protocol::SensorValues::from_manufacturer_specific_data(id, data).ok()
}

/// Relies on `Temperature::temperature_as_millicelsius` of `SensorValues`.
#[verifier::external_body]
fn values_temperature(v: &ruuvi_sensor_protocol::SensorValues) -> (r: Option<i32>) {
    v.temperature_as_millicelsius()
}

/// Relies on `Humidity::humidity_as_ppm` of `SensorValues`.
#[verifier::external_body]
fn values_humidity(v: &ruuvi_sensor_protocol::SensorValues) -> (r: Option<u32>) {
    v.humidity_as_ppm()
}

/// Relies on `Pressure::pressure_as_pascals` of `SensorValues`.
#[verifier::external_body]
fn values_pressure(v: &ruuvi_sensor_protocol::SensorValues) -> (r: Option<u32>) {
    v.pressure_as_pascals()
}

/// Relies on `BatteryPotential::battery_potential_as_millivolts` of
/// `SensorValues`.
#[verifier::external_body]
fn values_battery(v: &ruuvi_sensor_protocol::SensorValues) -> (r: Option<u16>) {
    v.battery_potential_as_millivolts()
}

/// Relies on `TransmitterPower::tx_power_as_dbm` of `SensorValues`.
#[verifier::external_body]
fn values_tx_power(v: &ruuvi_sensor_protocol::SensorValues) -> (r: Option<i8>) {
    v.tx_power_as_dbm()
}

/// Relies on `MacAddress::mac_address` of `SensorValues`: the hardware
/// address the frame itself carries, most significant byte first.
#[verifier::external_body]
fn values_mac(v: &ruuvi_sensor_protocol::SensorValues) -> (r: Option<[u8; 6]>) {
    v.mac_address()
}

/// Hex digit for a nibble, upper case.
fn hex_char_upper(n: u64) -> (c: char)
    requires
        n < 16,
    ensures
        c == spec_hex_char_upper(n),
{
    if n < 10 {
        (('0' as u8) + n as u8) as char
    } else {
        (('A' as u8) + (n - 10) as u8) as char
    }
}

/// Value of a hex digit, or `None` for any other character.
fn hex_val(c: char) -> (r: Option<u64>)
    ensures
        match r {
            Some(v) => is_hex_digit(c) && v == spec_hex_val(c) && v < 16,
            None => !is_hex_digit(c),
        },
{
    if '0' <= c && c <= '9' {
        Some(((c as u8) - ('0' as u8)) as u64)
    } else if 'a' <= c && c <= 'f' {
        Some(((c as u8) - ('a' as u8) + 10) as u64)
    } else if 'A' <= c && c <= 'F' {
        Some(((c as u8) - ('A' as u8) + 10) as u64)
    } else {
        None
    }
}

} // verus!
