//! Reading a GoodWe solar inverter over its Modbus-like UDP protocol: framing of
//! read commands, validation of response frames, decoding of typed registers and
//! rendering of the readings as Prometheus exposition text.
pub mod modbus;
pub mod text;
pub mod definitions;
pub mod discovery;
pub mod et;
pub mod identify;
pub mod laws;
pub mod metrics;
pub mod protocol;
