//! Constants and result translation for the RTOS queue primitives.
//!
//! The queue calls themselves are foreign vendor functions operating on raw
//! handles; what belongs to this layer is the choice of queue kind and copy
//! position handed to the generic vendor entry points, and turning the
//! vendor's truthy/falsy integer return into a `bool`.

use vstd::prelude::*;

verus! {

/// Vendor tick count meaning "block indefinitely".
pub const PORT_MAX_DELAY: u32 = 0xFFFF_FFFF;

/// The kind tag the generic vendor queue constructor expects.
#[derive(Clone, Copy, Debug, PartialEq, Eq, Structural)]
pub enum QueueType {
    Base,
    Mutex,
    CountingSemaphore,
    BinarySemaphore,
    RecursiveMutex,
}

impl QueueType {
    /// The vendor tag value of this queue kind.
    pub open spec fn spec_value(self) -> u8 {
        match self {
            QueueType::Base => 0u8,
            QueueType::Mutex => 1u8,
            QueueType::CountingSemaphore => 2u8,
            QueueType::BinarySemaphore => 3u8,
            QueueType::RecursiveMutex => 4u8,
        }
    }

    /// Executable form of [`QueueType::spec_value`].
    pub fn value(self) -> (r: u8)
        ensures
            r == self.spec_value(),
    {
        match self {
            QueueType::Base => 0u8,
            QueueType::Mutex => 1u8,
            QueueType::CountingSemaphore => 2u8,
            QueueType::BinarySemaphore => 3u8,
            QueueType::RecursiveMutex => 4u8,
        }
    }
}

/// Where the generic vendor send entry point places an item.
#[derive(Clone, Copy, Debug, PartialEq, Eq, Structural)]
pub enum QueueCopyPosition {
    SendToBack,
    SendToFront,
    Overwrite,
}

impl QueueCopyPosition {
    /// The vendor position value of this placement.
    pub open spec fn spec_value(self) -> i32 {
        match self {
            QueueCopyPosition::SendToBack => 0,
            QueueCopyPosition::SendToFront => 1,
            QueueCopyPosition::Overwrite => 2,
        }
    }

    /// Executable form of [`QueueCopyPosition::spec_value`].
    pub fn value(self) -> (r: i32)
        ensures
            r == self.spec_value(),
    {
        match self {
            QueueCopyPosition::SendToBack => 0,
            QueueCopyPosition::SendToFront => 1,
            QueueCopyPosition::Overwrite => 2,
        }
    }
}

/// Turns a vendor queue-operation return into a success flag: the vendor
/// reports success as any nonzero value.
pub fn queue_op_succeeded(retval: i32) -> (r: bool)
    ensures
        r == (retval != 0),
{
    retval != 0
}

} // verus!
