//! Queue families and the queues taken from them.

use vstd::prelude::*;
use crate::flags::{contains, spec_contains, QUEUE_COMPUTE, QUEUE_GRAPHICS, QUEUE_TRANSFER};

verus! {

/// A family of hardware queues: its index on the adapter, its capability
/// bits, and whether it can present to the surface in use.
#[derive(Clone, Copy, Debug, PartialEq, Eq, Structural, Hash)]
pub struct QueueFamily {
    pub index: u32,
    pub flags: u32,
    pub present: bool,
}

impl QueueFamily {
    pub fn new(index: u32, flags: u32, present: bool) -> (r: QueueFamily)
        ensures
            r == (QueueFamily { index, flags, present }),
    {
        QueueFamily { index, flags, present }
    }

    pub fn supports_graphics(&self) -> (r: bool)
        ensures
            r == spec_contains(self.flags, QUEUE_GRAPHICS),
    {
        contains(self.flags, QUEUE_GRAPHICS)
    }

    pub fn supports_compute(&self) -> (r: bool)
        ensures
            r == spec_contains(self.flags, QUEUE_COMPUTE),
    {
        contains(self.flags, QUEUE_COMPUTE)
    }

    pub fn supports_transfer(&self) -> (r: bool)
        ensures
            r == spec_contains(self.flags, QUEUE_TRANSFER),
    {
        contains(self.flags, QUEUE_TRANSFER)
    }

    pub fn supports_present(&self) -> (r: bool)
        ensures
            r == self.present,
    {
        self.present
    }
}

/// One queue of a family, with the handle the driver gave it.
#[derive(Clone, Copy, Debug, PartialEq, Eq, Structural)]
pub struct Queue {
    pub family: QueueFamily,
    pub handle: u64,
}

impl Queue {
    pub fn new(family: QueueFamily, handle: u64) -> (r: Queue)
        ensures
            r == (Queue { family, handle }),
    {
        Queue { family, handle }
    }
}

} // verus!
