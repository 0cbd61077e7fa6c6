//! Kernel boot-time virtual-memory bootstrap, verified over an explicit model
//! of the machine's paging state.
//!
//! The crate models the live address space (page table entries, physical frame
//! accounting, heap-allocator state) as plain data, and verifies the boot
//! orchestrator that builds the initial stack, reserves and maps the kernel
//! heap, and assembles the kernel memory-management handle. The central
//! guarantee is the leak-on-critical-failure discipline: no failure path ever
//! unmaps a region that backs currently executing code, data, or the active
//! page table's own storage. A small verified module also holds the pure
//! computations of the real-time-clock driver; the hardware port accesses
//! themselves live outside the verified library.

pub mod bootstrap;
pub mod config;
pub mod frames;
pub mod heap;
pub mod page_table;
pub mod region;
pub mod rtc;
pub mod stack;
