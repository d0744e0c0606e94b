//! Aggregation of the CO2 driver and the climate driver into one
//! measurement.
//!
//! The aggregator owns both sensors through the harness. Initialization
//! brings up the climate sensor first and then the CO2 sensor, failing fast
//! on the first error. A measurement reads the CO2 concentration first and
//! aborts without touching the climate sensor if that read fails; the
//! climate reading follows, and the record is stamped with the local time
//! captured after both reads complete. A partial reading is never turned
//! into a measurement.

use vstd::prelude::*;

use crate::measurement::Measurement;
use crate::mh_z19c::DriverError;

verus! {

/// A climate-sensor failure; the underlying error is opaque to this layer.
#[derive(Clone, Copy, Debug, PartialEq, Eq, Structural)]
pub struct ClimateError;

/// One temperature/humidity/pressure reading from the climate sensor, in
/// the scaled integer units of `Measurement`.
#[derive(Clone, Copy, Debug, PartialEq, Eq, Structural)]
pub struct ClimateReading {
    /// Temperature, millidegrees Celsius.
    pub temperature: i64,
    /// Relative humidity, thousandths of a percent.
    pub humidity: i64,
    /// Pressure, thousandths of the sensor's raw unit.
    pub pressure: i64,
}

/// A sub-sensor failure, with its provenance.
#[derive(Clone, Copy, Debug, PartialEq, Eq, Structural)]
pub enum AggregatorError {
    /// The CO2 driver failed.
    Co2 { error: DriverError },
    /// The climate driver failed.
    Climate,
}

/// What the harness must do next to advance a measurement session.
#[derive(Clone, Copy, Debug, PartialEq, Eq, Structural)]
pub enum MeasureAction {
    /// Read the CO2 concentration over the serial link.
    ReadCo2,
    /// Read temperature, humidity and pressure over the I2C bus.
    ReadClimate,
    /// Capture the current local time.
    TakeTimestamp,
    /// The session is over; take its outcome.
    Finish,
}

/// One measurement, step by step: CO2 first, then climate, then the
/// timestamp. A failure ends the session at once.
#[derive(Clone, Copy, Debug)]
pub enum MeasureSession {
    /// Waiting for the CO2 read.
    NeedCo2,
    /// The CO2 read succeeded; waiting for the climate read.
    NeedClimate { co2: u16 },
    /// Both reads succeeded; waiting for the timestamp.
    NeedStamp { co2: u16, climate: ClimateReading },
    /// The session produced a full measurement.
    Done { measurement: Measurement },
    /// A sub-sensor failed; no measurement is produced.
    Failed { error: AggregatorError },
}

/// What the harness must do in each session state.
pub open spec fn spec_measure_action(s: MeasureSession) -> MeasureAction {
    match s {
        MeasureSession::NeedCo2 => MeasureAction::ReadCo2,
        MeasureSession::NeedClimate { .. } => MeasureAction::ReadClimate,
        MeasureSession::NeedStamp { .. } => MeasureAction::TakeTimestamp,
        MeasureSession::Done { .. } => MeasureAction::Finish,
        MeasureSession::Failed { .. } => MeasureAction::Finish,
    }
}

/// What the CO2 outcome does to a session waiting for it.
pub open spec fn spec_co2_step(r: Result<u16, DriverError>) -> MeasureSession {
    match r {
        Ok(co2) => MeasureSession::NeedClimate { co2 },
        Err(error) => MeasureSession::Failed { error: AggregatorError::Co2 { error } },
    }
}

/// What the climate outcome does to a session waiting for it.
pub open spec fn spec_climate_step(co2: u16, r: Result<ClimateReading, ClimateError>) -> MeasureSession {
    match r {
        Ok(climate) => MeasureSession::NeedStamp { co2, climate },
        Err(_) => MeasureSession::Failed { error: AggregatorError::Climate },
    }
}

/// The finished measurement, assembled from both readings and the stamp.
pub open spec fn spec_stamp_step(co2: u16, climate: ClimateReading, timestamp: i64) -> MeasureSession {
    MeasureSession::Done {
        measurement: Measurement {
            timestamp,
            temperature: climate.temperature,
            humidity: climate.humidity,
            pressure: climate.pressure,
            co2_concentration: co2,
        },
    }
}

/// Relies on chrono::Local::now: reads the current local clock, reduced to
/// milliseconds since the Unix epoch. Nothing is assumed of the value.
#[verifier::external_body]
fn now_local_millis() -> i64 {
    chrono::Local::now().timestamp_millis()
}

impl MeasureSession {
    /// Starts one measurement: the CO2 concentration is read first.
    pub fn begin() -> (s: Self)
        ensures
            s == MeasureSession::NeedCo2,
    {
        MeasureSession::NeedCo2
    }

    /// What the harness must do next.
    pub fn next_action(&self) -> (a: MeasureAction)
        ensures
            a == spec_measure_action(*self),
    {
        match self {
            MeasureSession::NeedCo2 => MeasureAction::ReadCo2,
            MeasureSession::NeedClimate { .. } => MeasureAction::ReadClimate,
            MeasureSession::NeedStamp { .. } => MeasureAction::TakeTimestamp,
            MeasureSession::Done { .. } => MeasureAction::Finish,
            MeasureSession::Failed { .. } => MeasureAction::Finish,
        }
    }

    /// Records the outcome of the CO2 read. A failure aborts the session;
    /// the climate sensor is never asked to read after it.
    pub fn co2_result(self, r: Result<u16, DriverError>) -> (s: Self)
        requires
            self is NeedCo2,
        ensures
            s == spec_co2_step(r),
    {
        match r {
            Ok(co2) => MeasureSession::NeedClimate { co2 },
            Err(error) => MeasureSession::Failed { error: AggregatorError::Co2 { error } },
        }
    }

    /// Records the outcome of the climate read.
    pub fn climate_result(self, r: Result<ClimateReading, ClimateError>) -> (s: Self)
        requires
            self is NeedClimate,
        ensures
            s == spec_climate_step(self->NeedClimate_co2, r),
    {
        match (self, r) {
            (MeasureSession::NeedClimate { co2 }, Ok(climate)) => MeasureSession::NeedStamp {
                co2,
                climate,
            },
            _ => MeasureSession::Failed { error: AggregatorError::Climate },
        }
    }

    /// Stamps the session with a given timestamp, completing it.
    pub fn stamp(self, timestamp: i64) -> (s: Self)
        requires
            self is NeedStamp,
        ensures
            s == spec_stamp_step(self->NeedStamp_co2, self->NeedStamp_climate, timestamp),
    {
        match self {
            MeasureSession::NeedStamp { co2, climate } => MeasureSession::Done {
                measurement: Measurement {
                    timestamp,
                    temperature: climate.temperature,
                    humidity: climate.humidity,
                    pressure: climate.pressure,
                    co2_concentration: co2,
                },
            },
            _ => self,
        }
    }

    /// Stamps the session with the current local time. The clock value is
    /// whatever the machine reports; everything else of the measurement is
    /// pinned to the two readings.
    pub fn stamp_now(self) -> (s: Self)
        requires
            self is NeedStamp,
        ensures
            s == spec_stamp_step(
                self->NeedStamp_co2,
                self->NeedStamp_climate,
                s->Done_measurement.timestamp,
            ),
    {
        let t = now_local_millis();
        self.stamp(t)
    }

    /// The measurement or error of a finished session.
    pub fn outcome(self) -> (r: Result<Measurement, AggregatorError>)
        requires
            self is Done || self is Failed,
        ensures
            self is Done ==> r == Ok::<Measurement, AggregatorError>(self->Done_measurement),
            self is Failed ==> r == Err::<Measurement, AggregatorError>(self->Failed_error),
    {
        match self {
            MeasureSession::Done { measurement } => Ok(measurement),
            MeasureSession::Failed { error } => Err(error),
            _ => Err(AggregatorError::Climate),
        }
    }
}

/// A failed CO2 read aborts the measurement at once: the session moves to
/// the failed state carrying that error, never asks the harness for a
/// climate read, and never holds a measurement. Partial readings are never
/// produced.
pub proof fn lemma_co2_failure_never_measures(e: DriverError)
    ensures
        spec_co2_step(Err(e)) == (MeasureSession::Failed {
            error: AggregatorError::Co2 { error: e },
        }),
        spec_measure_action(spec_co2_step(Err(e))) != MeasureAction::ReadClimate,
        !(spec_co2_step(Err(e)) is Done),
{
}

/// Initialization of the aggregator, step by step: the climate sensor is
/// brought up first, then the CO2 sensor; the first failure ends it.
#[derive(Clone, Copy, Debug)]
pub enum InitSession {
    /// Waiting for the climate sensor to initialize.
    NeedClimateInit,
    /// The climate sensor is up; waiting for the CO2 link configuration.
    NeedCo2Init,
    /// Both sensors are up.
    Ready,
    /// A sub-sensor failed to come up.
    Failed { error: AggregatorError },
}

/// What the climate initialization outcome does to a session waiting for it.
pub open spec fn spec_climate_init_step(r: Result<(), ClimateError>) -> InitSession {
    match r {
        Ok(()) => InitSession::NeedCo2Init,
        Err(_) => InitSession::Failed { error: AggregatorError::Climate },
    }
}

/// What the CO2 initialization outcome does to a session waiting for it.
pub open spec fn spec_co2_init_step(r: Result<(), DriverError>) -> InitSession {
    match r {
        Ok(()) => InitSession::Ready,
        Err(error) => InitSession::Failed { error: AggregatorError::Co2 { error } },
    }
}

impl InitSession {
    /// Starts initialization: the climate sensor comes up first.
    pub fn begin() -> (s: Self)
        ensures
            s == InitSession::NeedClimateInit,
    {
        InitSession::NeedClimateInit
    }

    /// Records the outcome of the climate sensor initialization.
    pub fn climate_init_result(self, r: Result<(), ClimateError>) -> (s: Self)
        requires
            self is NeedClimateInit,
        ensures
            s == spec_climate_init_step(r),
    {
        match r {
            Ok(()) => InitSession::NeedCo2Init,
            Err(_) => InitSession::Failed { error: AggregatorError::Climate },
        }
    }

    /// Records the outcome of the CO2 link configuration.
    pub fn co2_init_result(self, r: Result<(), DriverError>) -> (s: Self)
        requires
            self is NeedCo2Init,
        ensures
            s == spec_co2_init_step(r),
    {
        match r {
            Ok(()) => InitSession::Ready,
            Err(error) => InitSession::Failed { error: AggregatorError::Co2 { error } },
        }
    }
}

} // verus!
