//! Device numbers.
use vstd::prelude::*;

verus! {

/// Bits of a device number that hold the minor number.
pub const MINORBITS: u64 = 20;

/// The device number made of a major and a minor number: the major number
/// shifted above the minor bits, or-ed with the minor number.
pub fn mkdev(major: u64, minor: u64) -> (r: u64)
    ensures
        r == ((major << MINORBITS) | minor),
{
    (major << MINORBITS) | minor
}

} // verus!
