//! Protocol logic of the MH-Z19C CO2 sensor driver.
//!
//! One reading is a single-shot exchange over an exclusively owned serial
//! link: write the fixed command frame, read exactly 9 bytes back, validate
//! the response and decode the concentration. The serial I/O itself is done
//! by the harness that owns the link; the `ReadTransaction` state machine
//! here sequences the exchange and holds every decision: which frame to
//! send, how each link failure is classified, and how a response is
//! validated and decoded. No retry happens at this layer.

use vstd::prelude::*;

use crate::codec::CodecError;
use crate::codec::spec_validate;
use crate::codec::validate;

verus! {

/// Baud rate of the serial link to the sensor.
pub const BAUD_RATE: u32 = 9600;

/// Data bits per character on the serial link.
pub const DATA_BITS: u8 = 8;

/// Stop bits per character on the serial link.
pub const STOP_BITS: u8 = 1;

/// Number of bytes in one frame, and the read-block size of the link.
pub const FRAME_LEN: usize = 9;

/// A failed attempt to read a concentration from the sensor.
#[derive(Clone, Copy, Debug, PartialEq, Eq, Structural)]
pub enum DriverError {
    /// The command frame could not be written to the link.
    WriteError,
    /// The link returned no full frame (failure or timeout with short data).
    ReadError,
    /// The link rejected its fixed configuration.
    LinkConfigError,
    /// The response carried a wrong start or command byte.
    FramingError { expected_start: u8, expected_command: u8, actual_start: u8, actual_command: u8 },
    /// The response checksum did not match its payload.
    ChecksumError { expected: u8, actual: u8 },
}

/// How a codec rejection surfaces as a driver error.
pub open spec fn spec_driver_error_of(e: CodecError) -> DriverError {
    match e {
        CodecError::FramingError { expected_start, expected_command, actual_start, actual_command } => {
            DriverError::FramingError { expected_start, expected_command, actual_start, actual_command }
        },
        CodecError::ChecksumError { expected, actual } => {
            DriverError::ChecksumError { expected, actual }
        },
    }
}

/// What decoding a full 9-byte response yields.
pub open spec fn spec_parse_response(s: Seq<u8>) -> Result<u16, DriverError> {
    match spec_validate(s) {
        Ok(c) => Ok(c),
        Err(e) => Err(spec_driver_error_of(e)),
    }
}

/// Validates a full 9-byte response and decodes the concentration,
/// reporting codec rejections as driver errors.
pub fn parse_response(frame: &[u8; 9]) -> (r: Result<u16, DriverError>)
    ensures
        r == spec_parse_response(frame@),
{
    match validate(frame) {
        Ok(c) => Ok(c),
        Err(CodecError::FramingError {
            expected_start,
            expected_command,
            actual_start,
            actual_command,
        }) => Err(DriverError::FramingError {
            expected_start,
            expected_command,
            actual_start,
            actual_command,
        }),
        Err(CodecError::ChecksumError { expected, actual }) => Err(DriverError::ChecksumError {
            expected,
            actual,
        }),
    }
}

/// One write-then-read exchange with the sensor, step by step.
///
/// The harness owning the link performs the I/O that each state calls for
/// and reports the outcome; the transitions classify failures and decode
/// the response.
#[derive(Clone, Copy, Debug)]
pub enum ReadTransaction {
    /// The command frame must be written to the link.
    NeedWrite,
    /// Exactly 9 bytes must be read from the link.
    NeedRead,
    /// The exchange is over, with a decoded concentration or an error.
    Finished { result: Result<u16, DriverError> },
}

/// What `ReadTransaction::write_result` yields.
pub open spec fn spec_write_step(ok: bool) -> ReadTransaction {
    if ok {
        ReadTransaction::NeedRead
    } else {
        ReadTransaction::Finished { result: Err(DriverError::WriteError) }
    }
}

/// What `ReadTransaction::read_result` yields: a link failure or a short
/// read is a read error, a full frame is validated and decoded.
pub open spec fn spec_read_step(outcome: Option<([u8; 9], usize)>) -> ReadTransaction {
    match outcome {
        None => ReadTransaction::Finished { result: Err(DriverError::ReadError) },
        Some((frame, n)) => {
            if n != 9 {
                ReadTransaction::Finished { result: Err(DriverError::ReadError) }
            } else {
                ReadTransaction::Finished { result: spec_parse_response(frame@) }
            }
        },
    }
}

impl ReadTransaction {
    /// Starts one exchange: the command frame is to be written first.
    pub fn begin() -> (t: Self)
        ensures
            t == ReadTransaction::NeedWrite,
    {
        ReadTransaction::NeedWrite
    }

    /// Records whether the command frame reached the link.
    pub fn write_result(self, ok: bool) -> (t: Self)
        requires
            self is NeedWrite,
        ensures
            t == spec_write_step(ok),
    {
        if ok {
            ReadTransaction::NeedRead
        } else {
            ReadTransaction::Finished { result: Err(DriverError::WriteError) }
        }
    }

    /// Records the outcome of the read: `None` when the link failed, else
    /// the buffer and how many bytes arrived before the timeout.
    pub fn read_result(self, outcome: Option<([u8; 9], usize)>) -> (t: Self)
        requires
            self is NeedRead,
        ensures
            t == spec_read_step(outcome),
    {
        match outcome {
            None => ReadTransaction::Finished { result: Err(DriverError::ReadError) },
            Some((frame, n)) => {
                if n != 9 {
                    ReadTransaction::Finished { result: Err(DriverError::ReadError) }
                } else {
                    ReadTransaction::Finished { result: parse_response(&frame) }
                }
            },
        }
    }

    /// The concentration or error of a finished exchange.
    pub fn result(self) -> (r: Result<u16, DriverError>)
        requires
            self is Finished,
        ensures
            self == (ReadTransaction::Finished { result: r }),
    {
        match self {
            ReadTransaction::Finished { result } => result,
            _ => Err(DriverError::ReadError),
        }
    }
}

} // verus!
