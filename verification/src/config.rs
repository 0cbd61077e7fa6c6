//! Fixed configuration values of the kernel address space.
//!
//! The heap's virtual start address and its initial size are build-time
//! constants, never computed at run time.

use vstd::prelude::*;

verus! {

/// Size in bytes of one virtual page, and of one physical frame.
pub const PAGE_SIZE: u64 = 4096;

/// Fixed virtual address at which the kernel heap begins.
pub const KERNEL_HEAP_START: u64 = 0xFFFF_FE80_0000_0000;

/// Fixed initial size of the kernel heap in bytes.
pub const KERNEL_HEAP_INITIAL_SIZE: u64 = 0x10_0000;

} // verus!
