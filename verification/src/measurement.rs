//! The combined record produced by one successful acquisition cycle.

use vstd::prelude::*;

verus! {

/// One atomic environmental reading, immutable once constructed.
///
/// The climate quantities are carried as scaled integers in thousandths of
/// the sensor's raw unit (millidegrees Celsius, milli-percent relative
/// humidity, thousandths of the raw pressure unit), so that the record is
/// made of plain values; the harness converts from and to the sensor's
/// fractional representation. The timestamp is the local clock in
/// milliseconds since the Unix epoch.
#[derive(Clone, Copy, Debug, PartialEq, Eq, Structural)]
pub struct Measurement {
    /// Local time of the acquisition, milliseconds since the Unix epoch.
    pub timestamp: i64,
    /// Temperature, millidegrees Celsius.
    pub temperature: i64,
    /// Relative humidity, thousandths of a percent.
    pub humidity: i64,
    /// Pressure, thousandths of the sensor's raw unit.
    pub pressure: i64,
    /// CO2 concentration, parts per million.
    pub co2_concentration: u16,
}

} // verus!
