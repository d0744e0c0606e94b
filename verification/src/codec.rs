//! Frame codec for the MH-Z19C CO2 sensor protocol.
//!
//! Frames are 9 bytes long. A response frame carries a start byte, a command
//! byte, a big-endian 16-bit concentration payload and a checksum over the
//! seven payload bytes (offsets 1 through 7).

use vstd::prelude::*;

verus! {

/// First byte of every well-formed response frame.
pub const RETURN_VALUE_START_BYTE: u8 = 0xff;

/// Command byte echoed in every well-formed response frame.
pub const RETURN_VALUE_COMMAND: u8 = 0x86;

/// A malformed response frame.
#[derive(Clone, Copy, Debug, PartialEq, Eq, Structural)]
pub enum CodecError {
    /// The start byte or the command byte is not the expected constant.
    FramingError { expected_start: u8, expected_command: u8, actual_start: u8, actual_command: u8 },
    /// The checksum byte does not match the checksum of the payload.
    ChecksumError { expected: u8, actual: u8 },
}

/// The fixed command frame that requests a CO2 concentration reading.
pub open spec fn spec_read_command() -> Seq<u8> {
    seq![0xffu8, 0x01u8, 0x86u8, 0x00u8, 0x00u8, 0x00u8, 0x00u8, 0x00u8, 0x79u8]
}

/// Encodes the fixed read-concentration command frame.
pub fn encode_read_command() -> (frame: [u8; 9])
    ensures
        frame@ == spec_read_command(),
{
    let frame: [u8; 9] = [0xff, 0x01, 0x86, 0x00, 0x00, 0x00, 0x00, 0x00, 0x79];
    proof {
        assert(frame@ =~= spec_read_command());
    }
    frame
}

/// Sum of the bytes at offsets `1..n` of a frame, as an unbounded integer.
pub open spec fn payload_sum_to(s: Seq<u8>, n: int) -> int
    decreases n,
{
    if n <= 1 {
        0
    } else {
        payload_sum_to(s, n - 1) + s[n - 1]
    }
}

/// Sum of the seven payload bytes (offsets 1 through 7) of a frame.
pub open spec fn payload_sum(s: Seq<u8>) -> int {
    payload_sum_to(s, 8)
}

/// The frame checksum: the two's-complement negation, modulo 256, of the sum
/// of the seven payload bytes.
pub open spec fn spec_checksum(s: Seq<u8>) -> u8 {
    ((256 - payload_sum(s) % 256) % 256) as u8
}

/// The concentration payload: big-endian 16-bit value in bytes 2 and 3.
pub open spec fn spec_concentration(s: Seq<u8>) -> u16 {
    (s[2] * 256 + s[3]) as u16
}

/// What `validate` returns for a 9-byte frame.
pub open spec fn spec_validate(s: Seq<u8>) -> Result<u16, CodecError> {
    if s[0] != RETURN_VALUE_START_BYTE || s[1] != RETURN_VALUE_COMMAND {
        Err(CodecError::FramingError {
            expected_start: RETURN_VALUE_START_BYTE,
            expected_command: RETURN_VALUE_COMMAND,
            actual_start: s[0],
            actual_command: s[1],
        })
    } else if s[8] != spec_checksum(s) {
        Err(CodecError::ChecksumError { expected: spec_checksum(s), actual: s[8] })
    } else {
        Ok(spec_concentration(s))
    }
}

proof fn lemma_payload_sum_nonneg(s: Seq<u8>, n: int)
    ensures
        0 <= payload_sum_to(s, n),
    decreases n,
{
    if n > 1 {
        lemma_payload_sum_nonneg(s, n - 1);
    }
}

proof fn lemma_mod_step(p: int, b: int)
    requires
        0 <= p,
        0 <= b < 256,
    ensures
        p % 256 + b < 256 ==> (p + b) % 256 == p % 256 + b,
        p % 256 + b >= 256 ==> (p + b) % 256 == p % 256 + b - 256,
{
    vstd::arithmetic::div_mod::lemma_fundamental_div_mod(p, 256);
    let q = p / 256;
    let r = p % 256;
    vstd::arithmetic::div_mod::lemma_mod_bound(p, 256);
    if r + b < 256 {
        vstd::arithmetic::div_mod::lemma_fundamental_div_mod_converse_mod(p + b, 256, q, r + b);
    } else {
        vstd::arithmetic::div_mod::lemma_fundamental_div_mod_converse_mod(
            p + b,
            256,
            q + 1,
            r + b - 256,
        );
    }
}

/// Computes the checksum of a 9-byte frame: wrapping sum of bytes 1 through 7,
/// negated in two's complement.
pub fn calculate_checksum(data: &[u8; 9]) -> (checksum: u8)
    ensures
        checksum == spec_checksum(data@),
{
    let mut checksum: u8 = 0;
    let mut i: usize = 1;
    while i < 8
        invariant
            1 <= i <= 8,
            checksum == payload_sum_to(data@, i as int) % 256,
        decreases 8 - i,
    {
        proof {
            lemma_payload_sum_nonneg(data@, i as int);
            lemma_mod_step(payload_sum_to(data@, i as int), data@[i as int] as int);
        }
        checksum = checksum.wrapping_add(data[i]);
        i = i + 1;
    }
    proof {
        let r = payload_sum(data@) % 256;
        if r == 0 {
            vstd::arithmetic::div_mod::lemma_fundamental_div_mod_converse_mod(256, 256, 1, 0);
        } else {
            vstd::arithmetic::div_mod::lemma_small_mod((256 - r) as nat, 256);
        }
    }
    checksum = 0xff - checksum;
    checksum = checksum.wrapping_add(1);
    checksum
}

/// Validates a 9-byte response frame and decodes the CO2 concentration.
///
/// Rejects a wrong start or command byte as a framing error and a wrong
/// checksum byte as a checksum error; otherwise returns the big-endian
/// concentration from bytes 2 and 3.
pub fn validate(frame: &[u8; 9]) -> (r: Result<u16, CodecError>)
    ensures
        r == spec_validate(frame@),
{
    if frame[0] != RETURN_VALUE_START_BYTE || frame[1] != RETURN_VALUE_COMMAND {
        return Err(CodecError::FramingError {
            expected_start: RETURN_VALUE_START_BYTE,
            expected_command: RETURN_VALUE_COMMAND,
            actual_start: frame[0],
            actual_command: frame[1],
        });
    }
    let expected = calculate_checksum(frame);
    if frame[8] != expected {
        return Err(CodecError::ChecksumError { expected, actual: frame[8] });
    }
    let hi: u16 = frame[2] as u16;
    let lo: u16 = frame[3] as u16;
    assert((hi << 8) | lo == hi * 256 + lo) by (bit_vector)
        requires
            hi < 256,
            lo < 256,
    ;
    let concentration: u16 = (hi << 8) | lo;
    Ok(concentration)
}

proof fn lemma_payload_sum_to_update(s: Seq<u8>, j: int, v: u8, n: int)
    requires
        0 <= j < s.len(),
        n <= s.len(),
    ensures
        payload_sum_to(s.update(j, v), n) == if 1 <= j < n {
            payload_sum_to(s, n) + v - s[j]
        } else {
            payload_sum_to(s, n)
        },
    decreases n,
{
    if n > 1 {
        lemma_payload_sum_to_update(s, j, v, n - 1);
    }
}

/// Replacing any one payload byte (offsets 1 through 7) with a different
/// value changes the checksum: the checksum detects any corruption confined
/// to a single payload byte.
pub proof fn lemma_checksum_detects_byte_change(s: Seq<u8>, j: int, v: u8)
    requires
        s.len() == 9,
        1 <= j <= 7,
        v != s[j],
    ensures
        spec_checksum(s.update(j, v)) != spec_checksum(s),
{
    let t = s.update(j, v);
    lemma_payload_sum_to_update(s, j, v, 8);
    let p = payload_sum(s);
    let q = payload_sum(t);
    lemma_payload_sum_nonneg(s, 8);
    lemma_payload_sum_nonneg(t, 8);
    let d = q - p;
    vstd::arithmetic::div_mod::lemma_mod_equivalence(q, p, 256);
    if d > 0 {
        vstd::arithmetic::div_mod::lemma_small_mod(d as nat, 256);
    } else {
        vstd::arithmetic::div_mod::lemma_fundamental_div_mod_converse_mod(d, 256, -1, d + 256);
    }
    let r1 = p % 256;
    let r2 = q % 256;
    vstd::arithmetic::div_mod::lemma_mod_bound(p, 256);
    vstd::arithmetic::div_mod::lemma_mod_bound(q, 256);
    vstd::arithmetic::div_mod::lemma_fundamental_div_mod_converse_mod(256, 256, 1, 0);
    if r1 != 0 {
        vstd::arithmetic::div_mod::lemma_small_mod((256 - r1) as nat, 256);
    }
    if r2 != 0 {
        vstd::arithmetic::div_mod::lemma_small_mod((256 - r2) as nat, 256);
    }
}

/// Flipping any single bit of any payload byte (offsets 1 through 7) changes
/// the checksum: single-bit corruption of the payload is always detected.
pub proof fn lemma_checksum_detects_bit_flip(s: Seq<u8>, j: int, k: u8)
    requires
        s.len() == 9,
        1 <= j <= 7,
        k < 8,
    ensures
        spec_checksum(s.update(j, s[j] ^ (1u8 << k))) != spec_checksum(s),
{
    let b = s[j];
    assert(b ^ (1u8 << k) != b) by (bit_vector)
        requires
            k < 8,
    ;
    lemma_checksum_detects_byte_change(s, j, b ^ (1u8 << k));
}

} // verus!
