//! Unit conversions: milliseconds to a `Duration`, and the unit in which a
//! byte count is shown.

use std::time::Duration;
use vstd::prelude::*;

verus! {

/// Number of nanoseconds in a millisecond.
pub const NANOS_IN_MILLISECOND: u32 = 1_000_000;

/// Number of nanoseconds in a second.
pub const NANOS_IN_SECOND: u64 = 1_000_000_000;

/// The length of a `Duration` in nanoseconds, as `Duration::as_nanos` reports it.
pub uninterp spec fn duration_as_nanos(d: Duration) -> u128;

/// Calls `Duration::new`. Its documentation says that nanoseconds beyond one
/// second carry into the seconds, so the duration lasts `secs` seconds plus
/// `nanos` nanoseconds in all; it panics only when that carry overflows the
/// seconds, which `requires` leaves out.
#[verifier::external_body]
fn duration_new(secs: u64, nanos: u32) -> (d: Duration)
    requires
        secs + (nanos as int) / (NANOS_IN_SECOND as int) <= u64::MAX,
    ensures
        duration_as_nanos(d) == secs * NANOS_IN_SECOND + nanos,
{
    Duration::new(secs, nanos)
}

/// Number of milliseconds in a second.
pub const MILLIS_IN_SECOND: u32 = 1000;

/// Converts milliseconds to a `Duration` of the same length: the whole
/// seconds, plus the remaining milliseconds as nanoseconds.
pub fn msec_2_duration(millisecond: u32) -> (d: Duration)
    ensures
        duration_as_nanos(d) == millisecond * NANOS_IN_MILLISECOND,
{
    let secs = millisecond / MILLIS_IN_SECOND;
    let nanos = (millisecond % MILLIS_IN_SECOND) * NANOS_IN_MILLISECOND;
    assert(secs * 1_000_000_000 + nanos == millisecond * 1_000_000) by (nonlinear_arith)
        requires
            secs == millisecond / 1000,
            nanos == (millisecond % 1000) * 1_000_000,
    ;
    duration_new(secs as u64, nanos)
}

/// Number of bytes in a gigabyte.
pub const BYTES_IN_GIGABYTE: u64 = 1_000_000_000;

/// Number of bytes in a megabyte.
pub const BYTES_IN_MEGABYTE: u64 = 1_000_000;

/// Number of bytes in a kilobyte.
pub const BYTES_IN_KILOBYTE: u64 = 1000;

/// The unit in which a byte count is shown.
#[derive(Clone, Copy, Debug, PartialEq, Eq, Structural)]
pub enum ByteUnit {
    Gigabyte,
    Megabyte,
    Kilobyte,
    Byte,
}

/// The largest decimal unit that the byte count reaches, or plain bytes.
pub open spec fn spec_byte_unit(bytes: u64) -> ByteUnit {
    if bytes >= BYTES_IN_GIGABYTE {
        ByteUnit::Gigabyte
    } else if bytes >= BYTES_IN_MEGABYTE {
        ByteUnit::Megabyte
    } else if bytes >= BYTES_IN_KILOBYTE {
        ByteUnit::Kilobyte
    } else {
        ByteUnit::Byte
    }
}

/// How many bytes one of the unit holds.
pub open spec fn spec_unit_size(unit: ByteUnit) -> u64 {
    match unit {
        ByteUnit::Gigabyte => BYTES_IN_GIGABYTE,
        ByteUnit::Megabyte => BYTES_IN_MEGABYTE,
        ByteUnit::Kilobyte => BYTES_IN_KILOBYTE,
        ByteUnit::Byte => 1,
    }
}

/// The symbol written after a number in the unit.
pub open spec fn spec_unit_symbol(unit: ByteUnit) -> Seq<char> {
    match unit {
        ByteUnit::Gigabyte => seq!['G', 'B'],
        ByteUnit::Megabyte => seq!['M', 'B'],
        ByteUnit::Kilobyte => seq!['K', 'B'],
        ByteUnit::Byte => seq!['B'],
    }
}

impl ByteUnit {
    /// How many bytes one of this unit holds.
    pub fn size(&self) -> (n: u64)
        ensures
            n == spec_unit_size(*self),
            *self == ByteUnit::Gigabyte ==> n == 1_000_000_000,
            *self == ByteUnit::Megabyte ==> n == 1_000_000,
            *self == ByteUnit::Kilobyte ==> n == 1000,
            *self == ByteUnit::Byte ==> n == 1,
    {
        match self {
            ByteUnit::Gigabyte => BYTES_IN_GIGABYTE,
            ByteUnit::Megabyte => BYTES_IN_MEGABYTE,
            ByteUnit::Kilobyte => BYTES_IN_KILOBYTE,
            ByteUnit::Byte => 1,
        }
    }

    /// The symbol written after a number in this unit.
    pub fn symbol(&self) -> (s: &'static str)
        ensures
            s@ == spec_unit_symbol(*self),
            *self == ByteUnit::Gigabyte ==> s@ == seq!['G', 'B'],
            *self == ByteUnit::Megabyte ==> s@ == seq!['M', 'B'],
            *self == ByteUnit::Kilobyte ==> s@ == seq!['K', 'B'],
            *self == ByteUnit::Byte ==> s@ == seq!['B'],
    {
        match self {
            ByteUnit::Gigabyte => {
                proof { reveal_strlit("GB"); }
                "GB"
            },
            ByteUnit::Megabyte => {
                proof { reveal_strlit("MB"); }
                "MB"
            },
            ByteUnit::Kilobyte => {
                proof { reveal_strlit("KB"); }
                "KB"
            },
            ByteUnit::Byte => {
                proof { reveal_strlit("B"); }
                "B"
            },
        }
    }
}

/// Picks the unit in which `pretty_bytes` shows a byte count: gigabytes from
/// one gigabyte on, else megabytes from one megabyte on, else kilobytes from
/// one kilobyte on, else bytes.
pub fn pretty_bytes_unit(bytes: u64) -> (unit: ByteUnit)
    ensures
        unit == spec_byte_unit(bytes),
        unit == ByteUnit::Gigabyte <==> bytes >= 1_000_000_000,
        unit == ByteUnit::Megabyte <==> 1_000_000 <= bytes < 1_000_000_000,
        unit == ByteUnit::Kilobyte <==> 1000 <= bytes < 1_000_000,
        unit == ByteUnit::Byte <==> bytes < 1000,
        spec_unit_size(unit) <= bytes || unit == ByteUnit::Byte,
        bytes < spec_unit_size(unit) * 1000 || unit == ByteUnit::Gigabyte,
{
    if bytes >= BYTES_IN_GIGABYTE {
        ByteUnit::Gigabyte
    } else if bytes >= BYTES_IN_MEGABYTE {
        ByteUnit::Megabyte
    } else if bytes >= BYTES_IN_KILOBYTE {
        ByteUnit::Kilobyte
    } else {
        ByteUnit::Byte
    }
}

} // verus!
