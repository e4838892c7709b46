//! Bridge between a local wireless sensor broadcast source and an MQTT
//! broker: per-device throttle/confirmation gate, event dispatch, broker
//! topic handling and discovery-document construction.
//!
//! The throttle gate is armed by the broker's own echo of a prior publish
//! (a confirmation), not by the decision to forward a reading; the dispatch
//! loop is the single owner and mutator of device state.

pub mod config;
pub mod devices;
pub mod dispatch;
pub mod homeassistant;
pub mod mqtt;
pub mod ruuvi;
pub mod text;
