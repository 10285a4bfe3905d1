//! The errors that creating descriptor pools and allocating from them can
//! give.

use vstd::prelude::*;

verus! {

/// Error type returned when the host or the device ran out of memory.
#[derive(Clone, Copy, Debug, PartialEq, Eq, Structural)]
pub enum OomError {
    /// There is no memory available on the host (ie. the CPU, RAM, etc.).
    OutOfHostMemory,
    /// There is no memory available on the device (ie. video memory).
    OutOfDeviceMemory,
}

/// Error that can be returned when descriptor sets are allocated from a
/// descriptor pool.
#[derive(Clone, Copy, Debug, PartialEq, Eq, Structural)]
pub enum DescriptorPoolAllocError {
    /// There is no memory available on the host (ie. the CPU, RAM, etc.).
    OutOfHostMemory,
    /// There is no memory available on the device (ie. video memory).
    OutOfDeviceMemory,
    /// Allocation has failed because the pool is too fragmented.
    FragmentedPool,
    /// There is no more space available in the descriptor pool.
    OutOfPoolMemory,
}

impl DescriptorPoolAllocError {
    /// Whether the error says that the host or the device ran out of memory.
    pub open spec fn is_oom(self) -> bool {
        self is OutOfHostMemory || self is OutOfDeviceMemory
    }

    /// The out-of-memory error that this error stands for.
    pub open spec fn oom(self) -> OomError
        recommends
            self.is_oom(),
    {
        if self is OutOfHostMemory {
            OomError::OutOfHostMemory
        } else {
            OomError::OutOfDeviceMemory
        }
    }

    /// Passes an out-of-memory error on unchanged.
    ///
    /// A pool that never frees single sets cannot become fragmented, and one
    /// that is asked for no more sets than it was made for cannot run out of
    /// space, so those two errors have no counterpart.
    pub fn into_oom(self) -> (error: OomError)
        requires
            self.is_oom(),
        ensures
            error == self.oom(),
    {
        match self {
            DescriptorPoolAllocError::OutOfHostMemory => OomError::OutOfHostMemory,
            _ => OomError::OutOfDeviceMemory,
        }
    }
}

} // verus!
