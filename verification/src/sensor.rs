//! Sample extraction: turning one device read into one 32-bit sample.

use vstd::prelude::*;
use vstd::string::StringExecFns;

verus! {

/// Why one read attempt yielded no sample. Each variant mirrors one distinct
/// failure of the underlying device read; none is ever swallowed.
#[derive(Clone, Copy, Debug, PartialEq, Eq, Structural)]
pub enum SensorError {
    /// The device path does not exist.
    NotFound,
    /// The device path exists but may not be read.
    PermissionDenied,
    /// The device path names a directory, not a readable object.
    IsADirectory,
    /// The input ended before a full sample's worth of bytes was available.
    EndOfInput,
    /// Any other input/output failure.
    Other,
}

/// The human-readable cause that a failure is reported with.
pub open spec fn message_of(e: SensorError) -> Seq<char> {
    match e {
        SensorError::NotFound => "device not found"@,
        SensorError::PermissionDenied => "permission denied"@,
        SensorError::IsADirectory => "device path is a directory"@,
        SensorError::EndOfInput => "end of input before a full sample"@,
        SensorError::Other => "input/output failure"@,
    }
}

impl SensorError {
    /// Renders the failure's human-readable cause.
    pub fn message(&self) -> (s: String)
        ensures
            s@ == message_of(*self),
    {
        match self {
            SensorError::NotFound => String::from_str("device not found"),
            SensorError::PermissionDenied => String::from_str("permission denied"),
            SensorError::IsADirectory => String::from_str("device path is a directory"),
            SensorError::EndOfInput => String::from_str("end of input before a full sample"),
            SensorError::Other => String::from_str("input/output failure"),
        }
    }
}

/// How many bytes make one sample.
pub const SAMPLE_BYTES: usize = 4;

/// The value of a four-byte sample read least-significant byte first.
pub open spec fn le_sample_value(b: Seq<u8>) -> int {
    b[0] + b[1] * 0x100 + b[2] * 0x1_0000 + b[3] * 0x100_0000
}

/// Decodes the bytes one device read yielded into a sample.
///
/// Fewer than four available bytes is a failure, never a partial sample;
/// four or more decode the first four in little-endian order.
pub fn decode_sample(bytes: &[u8]) -> (r: Result<u32, SensorError>)
    ensures
        bytes@.len() >= SAMPLE_BYTES ==> r == Ok::<u32, SensorError>(le_sample_value(bytes@) as u32),
        bytes@.len() < SAMPLE_BYTES ==> r == Err::<u32, SensorError>(SensorError::EndOfInput),
{
    if bytes.len() < SAMPLE_BYTES {
        return Err(SensorError::EndOfInput);
    }
    let b0 = bytes[0] as u32;
    let b1 = bytes[1] as u32;
    let b2 = bytes[2] as u32;
    let b3 = bytes[3] as u32;
    Ok(b0 + b1 * 0x100 + b2 * 0x1_0000 + b3 * 0x100_0000)
}

} // verus!
