//! State of the kernel's dynamic-allocation heap.
//!
//! The allocator proper is outside this model; what matters to the bootstrap
//! is whether the heap has been activated, over which fixed range, and that
//! allocation against a heap that was never activated fails cleanly instead
//! of corrupting memory. Allocation is modeled as a bump over the initial
//! range.

use vstd::prelude::*;

verus! {

/// The kernel heap: inactive until the bootstrap has mapped its backing
/// range, then a bump allocator over `[start, start + size)`.
#[derive(Clone, Copy, PartialEq, Eq, Structural, Debug)]
pub struct KernelHeap {
    pub initialized: bool,
    pub start: u64,
    pub size: u64,
    pub used: u64,
}

impl KernelHeap {
    pub open spec fn wf(self) -> bool {
        self.initialized ==> {
            &&& self.used <= self.size
            &&& self.start as int + self.size as int <= u64::MAX as int
        }
    }

    /// The heap before any bootstrap ran: not activated.
    pub fn inactive() -> (r: KernelHeap)
        ensures
            r == (KernelHeap { initialized: false, start: 0, size: 0, used: 0 }),
    {
        KernelHeap { initialized: false, start: 0, size: 0, used: 0 }
    }

    /// Activate the heap over `[start, start + size)`.
    ///
    /// Infallible by contract: the bootstrap maps the range before calling.
    pub fn init_single_heap(&mut self, start: u64, size: u64)
        requires
            start as int + size as int <= u64::MAX as int,
        ensures
            *final(self) == (KernelHeap { initialized: true, start, size, used: 0 }),
    {
        self.initialized = true;
        self.start = start;
        self.size = size;
        self.used = 0;
    }

    /// Hand out `bytes` bytes from the heap, bumping the watermark.
    ///
    /// Returns the start address of the allocation, or `None` when the heap
    /// was never activated or the remaining room is too small. A heap whose
    /// activation was skipped because bootstrap failed therefore refuses every
    /// request instead of handing out unmapped memory.
    pub fn allocate(&mut self, bytes: u64) -> (r: Option<u64>)
        requires
            old(self).wf(),
        ensures
            final(self).wf(),
            r is Some <==> (old(self).initialized && old(self).used as int + bytes as int
                <= old(self).size as int),
            r is Some ==> {
                &&& r->Some_0 as int == old(self).start as int + old(self).used as int
                &&& *final(self) == (KernelHeap { used: (old(self).used + bytes) as u64, ..*old(
                    self,
                ) })
            },
            r is None ==> *final(self) == *old(self),
    {
        if !self.initialized {
            return None;
        }
        if bytes > self.size - self.used {
            return None;
        }
        let addr = self.start + self.used;
        self.used = self.used + bytes;
        Some(addr)
    }
}

} // verus!
