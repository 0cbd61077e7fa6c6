//! The physical frame allocator and its mutual-exclusion lock.
//!
//! The allocator is modeled by its free-frame count; every mutation of frame
//! state must happen with the lock held. At boot time there is no contention,
//! so acquisition is modeled as immediate, but the discipline that mutating
//! operations demand the lock is enforced in the contracts.

use vstd::prelude::*;

verus! {

/// Pool of free physical frames.
#[derive(Clone, Copy, PartialEq, Eq, Structural, Debug)]
pub struct FrameAllocator {
    pub free_frames: u64,
}

/// The frame allocator behind its kernel-wide mutual-exclusion lock.
#[derive(Clone, Copy, PartialEq, Eq, Structural, Debug)]
pub struct FrameAllocatorMutex {
    pub held: bool,
    pub inner: FrameAllocator,
}

impl FrameAllocatorMutex {
    /// Acquire the lock. The boot processor runs alone, so the busy-spin
    /// acquisition always succeeds at once; a caller may not already hold it.
    pub fn lock(&mut self)
        requires
            !old(self).held,
        ensures
            final(self).held,
            final(self).inner == old(self).inner,
    {
        self.held = true;
    }

    /// Release the lock.
    pub fn unlock(&mut self)
        requires
            old(self).held,
        ensures
            !final(self).held,
            final(self).inner == old(self).inner,
    {
        self.held = false;
    }
}

} // verus!
