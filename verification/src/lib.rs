//! Sensor acquisition and decoding layer for a small environmental logger.
//!
//! The library holds the protocol logic for a CO2 sensor reached over a
//! serial link (frame codec and driver-level decoding), a bounded
//! constant-delay retry policy, the aggregation of heterogeneous sensor
//! readings into one measurement, and the acquisition-loop state machine.
//! Hardware access, storage and logging live outside the library and drive
//! these state machines with plain values.

pub mod acquisition;
pub mod codec;
pub mod measurement;
pub mod mh_z19c;
pub mod retry;
pub mod sensor;
