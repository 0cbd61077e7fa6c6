//! Virtual-address ranges and their ownership handles.
//!
//! A `MappedRegion` is the handle to a validated virtual range with present
//! page-table entries; a `GuardPage` is the opposite: a page whose defining
//! property is the absence of any mapping.

use vstd::prelude::*;
use crate::config::PAGE_SIZE;

verus! {

/// Permission flags of a mapped virtual range.
#[derive(Clone, Copy, PartialEq, Eq, Structural, Debug)]
pub struct MappingFlags {
    pub writable: bool,
    pub executable: bool,
}

/// The flags the kernel heap is mapped with: read/write, never executable.
pub open spec fn spec_heap_flags() -> MappingFlags {
    MappingFlags { writable: true, executable: false }
}

/// Returns the heap mapping flags: read/write, non-executable.
pub fn heap_flags() -> (r: MappingFlags)
    ensures
        r == spec_heap_flags(),
{
    MappingFlags { writable: true, executable: false }
}

/// Handle to a validated virtual-address range backed by present page-table
/// entries. Whoever holds the handle is responsible for its eventual unmap;
/// dropping the handle without calling an unmap operation models deliberately
/// forgoing that cleanup (the handle itself carries no side effect).
#[derive(Clone, Copy, PartialEq, Eq, Structural, Debug)]
pub struct MappedRegion {
    pub start: u64,
    pub size: u64,
    pub flags: MappingFlags,
}

impl MappedRegion {
    /// A valid region is page-aligned, non-empty, and ends within the
    /// addressable range.
    pub open spec fn wf(self) -> bool {
        &&& self.start as int % PAGE_SIZE as int == 0
        &&& self.size as int % PAGE_SIZE as int == 0
        &&& self.size > 0
        &&& self.start as int + self.size as int <= u64::MAX as int
    }

    /// Exclusive end address of the region.
    pub open spec fn end(self) -> int {
        self.start as int + self.size as int
    }

    /// Whether `addr` lies inside the region.
    pub open spec fn covers(self, addr: int) -> bool {
        self.start as int <= addr < self.end()
    }

    /// Whether the two ranges share no address.
    pub open spec fn disjoint(self, other: MappedRegion) -> bool {
        self.end() <= other.start as int || other.end() <= self.start as int
    }

    /// Number of pages (frames) backing the region.
    pub open spec fn pages(self) -> int {
        self.size as int / PAGE_SIZE as int
    }

    /// Exclusive end address, as a machine word.
    pub fn end_addr(&self) -> (r: u64)
        requires
            self.wf(),
        ensures
            r as int == self.end(),
    {
        self.start + self.size
    }

    /// Release ownership of the region without its unmap side effect.
    ///
    /// This is the `discard` half of the disposal pair: the page-table entries
    /// backing the range stay present forever. The orchestrator calls it on a
    /// failure path for every region that backs currently executing code,
    /// where an unmap would fault the processor.
    pub fn discard(self) {
    }
}

/// A deliberately unmapped page immediately adjacent to a stack, used to turn
/// a stack overflow into a page fault instead of silent corruption.
#[derive(Clone, Copy, PartialEq, Eq, Structural, Debug)]
pub struct GuardPage {
    pub start: u64,
}

impl GuardPage {
    pub open spec fn wf(self) -> bool {
        &&& self.start as int % PAGE_SIZE as int == 0
        &&& self.start as int + PAGE_SIZE as int <= u64::MAX as int
    }

    /// Exclusive end address of the guard page.
    pub open spec fn end(self) -> int {
        self.start as int + PAGE_SIZE as int
    }

    /// Exclusive end address, as a machine word.
    pub fn end_addr(&self) -> (r: u64)
        requires
            self.wf(),
        ensures
            r as int == self.end(),
    {
        self.start + PAGE_SIZE
    }
}

/// A reserved but not yet mapped virtual range: virtual pages handed out by
/// the virtual-address allocator, carrying no page-table entries yet.
#[derive(Clone, Copy, PartialEq, Eq, Structural, Debug)]
pub struct AllocatedPages {
    pub start: u64,
    pub size: u64,
}

impl AllocatedPages {
    pub open spec fn wf(self) -> bool {
        &&& self.start as int % PAGE_SIZE as int == 0
        &&& self.size as int % PAGE_SIZE as int == 0
        &&& self.size > 0
        &&& self.start as int + self.size as int <= u64::MAX as int
    }
}

} // verus!
