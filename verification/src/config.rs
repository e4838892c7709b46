//! Static configuration: broker settings, the device registry read at
//! startup, and the default values used when the file leaves a field out.
//!
//! File reading, YAML parsing and command-line handling live outside the
//! library; it is handed plain values.

use vstd::prelude::*;

use vstd::string::StringExecFns;

use crate::ruuvi::BDAddr;
use crate::text::push_char;

verus! {

/// Broker port assumed when the configuration does not name one.
pub fn default_mqtt_port() -> (r: u16)
    ensures
        r == 1883,
{
    1883
}

/// A configured device: the human-readable name shown in discovery
/// documents and logs.
#[derive(Debug)]
pub struct Device {
    pub name: String,
}

impl Device {
    /// An identical copy; `Device` is handed out by value from the
    /// registry, so the copy must be known to keep the name.
    pub fn duplicate(&self) -> (r: Device)
        ensures
            r == *self,
    {
        Device { name: self.name.clone() }
    }
}

/// Broker connection settings. All durations are in milliseconds.
#[derive(Debug)]
pub struct Mqtt {
    pub server: String,
    pub port: u16,
    pub user: Option<String>,
    pub password: Option<String>,
    pub client_id: String,
    /// Minimum time between two forwarded readings of one device,
    /// measured from the last confirmed publish; zero disables throttling.
    pub throttle_ms: u64,
    pub base_topic: String,
}

/// The whole static configuration: broker settings and the identity-to-name
/// registry, fixed for the life of the process.
pub struct Config {
    pub mqtt: Mqtt,
    pub devices: Vec<(BDAddr, Device)>,
}

impl Config {
    /// Every configured identity is a well-formed address.
    pub open spec fn wf(self) -> bool {
        forall|i: int| 0 <= i < self.devices@.len() ==> (#[trigger] self.devices@[i]).0.wf()
    }
}

/// Base topic assumed when the configuration does not name one.
pub fn default_mqtt_base_topic() -> (r: String)
    ensures
        r@ == "ruuvi2mqtt"@,
{
    "ruuvi2mqtt".to_owned()
}

/// Throttle interval assumed when the configuration does not name one:
/// drawn between 50 and 70 seconds so that a fleet of gateways does not
/// publish in lockstep.
pub fn default_mqtt_throttle() -> (r: u64)
    ensures
        50_000 <= r < 70_000,
{
    let secs = random_in_range(50, 70);
    secs * 1000
}

/// Client identifier assumed when the configuration does not name one:
/// a fixed prefix followed by the host name, or by a random three-digit
/// suffix when the host name cannot be read.
pub fn default_mqtt_client_id() -> (r: String)
    ensures
        r@.len() >= 11,
        r@.subrange(0, 11) == "ruuvi2mqtt_"@,
{
    match read_host_name() {
        Some(host) => client_id_with_suffix(host.as_str()),
        None => {
            let n = random_in_range(0, 256);
            client_id_with_suffix(three_digits(n as u8).as_str())
        },
    }
}

/// The client identifier built from a suffix: `ruuvi2mqtt_` then the
/// suffix, unchanged.
pub fn client_id_with_suffix(suffix: &str) -> (r: String)
    ensures
        r@ == "ruuvi2mqtt_"@ + suffix@,
        r@.len() >= 11,
        r@.subrange(0, 11) == "ruuvi2mqtt_"@,
{
    let prefix: &str = "ruuvi2mqtt_";
    proof {
        reveal_strlit("ruuvi2mqtt_");
    }
    let r = prefix.to_owned().concat(suffix);
    proof {
        assert(r@.subrange(0, 11) =~= "ruuvi2mqtt_"@);
    }
    r
}

/// What each digit position of `three_digits` holds.
pub open spec fn spec_decimal_digit(n: u8, div: u8) -> char {
    (('0' as u8) + ((n / div) % 10)) as char
}

/// A number rendered as exactly three decimal digits, zero padded.
pub fn three_digits(n: u8) -> (r: String)
    ensures
        r@ == seq![
            spec_decimal_digit(n, 100),
            spec_decimal_digit(n, 10),
            spec_decimal_digit(n, 1),
        ],
{
    let mut out = String::new();
    push_char(&mut out, (('0' as u8) + ((n / 100) % 10)) as char);
    push_char(&mut out, (('0' as u8) + ((n / 10) % 10)) as char);
    push_char(&mut out, (('0' as u8) + (n % 10)) as char);
    proof {
        assert(n % 1 == 0);
        assert(n / 1 == n);
        assert(out@ =~= seq![
            spec_decimal_digit(n, 100),
            spec_decimal_digit(n, 10),
            spec_decimal_digit(n, 1),
        ]);
    }
    out
}

/// How a secret is shown in diagnostics: its presence, never its value.
pub fn fmt_secret(value: Option<&String>) -> (r: &str)
    ensures
        value is None ==> r@ == "None"@,
        value is Some ==> r@ == "Some(<REDACTED>)"@,
{
    match value {
        None => "None",
        Some(_) => "Some(<REDACTED>)",
    }
}

/// Relies on `rand::random_range`: a uniformly drawn value in `lo..hi`,
/// which panics on an empty range.
#[verifier::external_body]
pub(crate) fn random_in_range(lo: u64, hi: u64) -> (r: u64)
    requires
        lo < hi,
    ensures
        lo <= r < hi,
{
    rand::random_range(lo..hi)
}

/// Relies on `sysinfo::System::host_name`: the machine's host name, if
/// the system exposes one. Nothing is assumed of the value.
#[verifier::external_body]
fn read_host_name() -> (r: Option<String>)
{
    sysinfo::System::host_name()
}

} // verus!
