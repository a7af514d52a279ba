//! Bitmask helpers shared by the capability checks.

use vstd::prelude::*;

verus! {

/// Queue capability bit: graphics operations.
pub const QUEUE_GRAPHICS: u32 = 0x1;

/// Queue capability bit: compute operations.
pub const QUEUE_COMPUTE: u32 = 0x2;

/// Queue capability bit: transfer operations.
pub const QUEUE_TRANSFER: u32 = 0x4;

/// Whether every bit of `wanted` is set in `flags`.
pub open spec fn spec_contains(flags: u32, wanted: u32) -> bool {
    flags & wanted == wanted
}

/// Tests whether `flags` holds every bit of `wanted`.
pub fn contains(flags: u32, wanted: u32) -> (r: bool)
    ensures
        r == spec_contains(flags, wanted),
{
    flags & wanted == wanted
}

} // verus!
