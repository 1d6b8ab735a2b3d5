//! The unit a memory size is shown in, and how often the process
//! statistics are measured. Measuring the processes and printing the
//! scaled size (a floating-point division) belong to the program.

use vstd::prelude::*;

verus! {

/// The shortest time between two measurements of the processes, in
/// milliseconds; a request sooner gets the previous figures.
pub const SAMPLE_INTERVAL_MS: u64 = 500;

/// Whether a new measurement is due, `elapsed_ms` after the last one.
pub fn sample_due(elapsed_ms: u64) -> (r: bool)
    ensures
        r == (elapsed_ms >= SAMPLE_INTERVAL_MS),
{
    elapsed_ms >= SAMPLE_INTERVAL_MS
}

/// The unit of a shown memory size.
#[derive(Debug, Clone, Copy, PartialEq, Eq, Structural)]
pub enum ByteScale {
    /// Gibibytes, shown with two decimals.
    Gb,
    /// Mebibytes, shown with one decimal.
    Mb,
    /// Kibibytes, shown without decimals.
    Kb,
    /// Plain bytes.
    B,
}

pub const KIB: u64 = 1024;

pub const MIB: u64 = 1048576;

pub const GIB: u64 = 1073741824;

pub open spec fn byte_scale_of(bytes: u64) -> ByteScale {
    if bytes >= 1024 * 1024 * 1024 {
        ByteScale::Gb
    } else if bytes >= 1024 * 1024 {
        ByteScale::Mb
    } else if bytes >= 1024 {
        ByteScale::Kb
    } else {
        ByteScale::B
    }
}

/// The largest unit that the size reaches one of.
pub fn byte_scale(bytes: u64) -> (r: ByteScale)
    ensures
        r == byte_scale_of(bytes),
{
    if bytes >= GIB {
        ByteScale::Gb
    } else if bytes >= MIB {
        ByteScale::Mb
    } else if bytes >= KIB {
        ByteScale::Kb
    } else {
        ByteScale::B
    }
}

/// How many bytes one unit holds.
pub fn scale_divisor(s: ByteScale) -> (r: u64)
    ensures
        r == match s {
            ByteScale::Gb => 1073741824u64,
            ByteScale::Mb => 1048576u64,
            ByteScale::Kb => 1024u64,
            ByteScale::B => 1u64,
        },
{
    match s {
        ByteScale::Gb => 1073741824,
        ByteScale::Mb => 1048576,
        ByteScale::Kb => 1024,
        ByteScale::B => 1,
    }
}

} // verus!
