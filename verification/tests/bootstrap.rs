use memory_initialization::bootstrap::{
    init_memory_management, AddressSpaceRegions, BootError, Machine,
};
use memory_initialization::config::{KERNEL_HEAP_INITIAL_SIZE, KERNEL_HEAP_START, PAGE_SIZE};
use memory_initialization::frames::{FrameAllocator, FrameAllocatorMutex};
use memory_initialization::heap::KernelHeap;
use memory_initialization::page_table::PageTable;
use memory_initialization::region::{GuardPage, MappedRegion, MappingFlags};

fn rw(start: u64, size: u64) -> MappedRegion {
    MappedRegion { start, size, flags: MappingFlags { writable: true, executable: false } }
}

fn rx(start: u64, size: u64) -> MappedRegion {
    MappedRegion { start, size, flags: MappingFlags { writable: false, executable: true } }
}

struct Setup {
    machine: Machine,
    regs: AddressSpaceRegions,
}

/// A machine as the address-space initializer leaves it: section mappings,
/// contiguous stack material above its guard page, higher-half and identity
/// mappings, all present in the new page table.
fn setup(free_frames: u64, stack_pages: Vec<MappedRegion>) -> Setup {
    let text = rx(0x10_0000, 0x3000);
    let rodata = rw(0x10_3000, 0x1000);
    let data = rw(0x10_4000, 0x2000);
    let stack_guard = GuardPage { start: 0x20_0000 };
    let higher_half = vec![rw(0x30_0000, 0x4000)];
    let identity = vec![rw(0x1000, 0x1000)];

    let mut entries = vec![text, rodata, data];
    entries.extend(stack_pages.iter().copied());
    entries.extend(higher_half.iter().copied());
    entries.extend(identity.iter().copied());

    Setup {
        machine: Machine {
            page_table: PageTable { entries },
            frame_allocator: FrameAllocatorMutex {
                held: false,
                inner: FrameAllocator { free_frames },
            },
            heap: KernelHeap::inactive(),
        },
        regs: AddressSpaceRegions {
            text,
            rodata,
            data,
            stack_guard,
            stack_pages,
            higher_half,
            identity,
        },
    }
}

fn contiguous_stack() -> Vec<MappedRegion> {
    vec![rw(0x20_1000, 0x1000), rw(0x20_2000, 0x1000)]
}

fn split_stack() -> Vec<MappedRegion> {
    vec![rw(0x20_1000, 0x1000), rw(0x20_3000, 0x1000)]
}

#[test]
fn success_returns_configured_heap_and_stack_top() {
    let Setup { mut machine, regs } = setup(1024, contiguous_stack());
    let res = init_memory_management(&mut machine, Ok(regs));
    let boot = res.expect("bootstrap with enough memory must succeed");

    assert_eq!(boot.kernel_mmi.heap_region.start, KERNEL_HEAP_START);
    assert_eq!(boot.kernel_mmi.heap_region.size, KERNEL_HEAP_INITIAL_SIZE);
    assert!(boot.kernel_mmi.heap_region.flags.writable);
    assert!(!boot.kernel_mmi.heap_region.flags.executable);
    assert!(machine.heap.initialized);
    assert_eq!(machine.heap.start, KERNEL_HEAP_START);
    assert_eq!(machine.heap.size, KERNEL_HEAP_INITIAL_SIZE);

    // the stack top is the end of its contiguous backing range
    assert_eq!(boot.stack.top(), 0x20_3000);
    assert_eq!(boot.stack.pages.start, 0x20_1000);
    assert_eq!(boot.stack.pages.size, 0x2000);

    // the sections come back unchanged and stay mapped
    assert_eq!(boot.text, rx(0x10_0000, 0x3000));
    assert_eq!(boot.rodata, rw(0x10_3000, 0x1000));
    assert_eq!(boot.data, rw(0x10_4000, 0x2000));
    assert_eq!(boot.identity_regions, vec![rw(0x1000, 0x1000)]);
    assert_eq!(boot.kernel_mmi.higher_half, vec![rw(0x30_0000, 0x4000)]);

    // everything mapped before stays mapped: sections, stack pages, the rest
    assert!(machine.page_table.is_mapped(0x10_0000));
    assert!(machine.page_table.is_mapped(0x20_1000));
    assert!(machine.page_table.is_mapped(0x20_2000));
    assert!(machine.page_table.is_mapped(0x30_0000));
    assert!(!machine.page_table.is_mapped(0x20_0000)); // the guard page is not

    // the heap range is translatable, and exactly 256 frames were consumed
    assert!(machine.page_table.is_mapped(KERNEL_HEAP_START));
    assert!(machine.page_table.is_mapped(KERNEL_HEAP_START + KERNEL_HEAP_INITIAL_SIZE - 1));
    assert!(!machine.page_table.is_mapped(KERNEL_HEAP_START + KERNEL_HEAP_INITIAL_SIZE));
    assert_eq!(
        machine.frame_allocator.inner.free_frames,
        1024 - KERNEL_HEAP_INITIAL_SIZE / PAGE_SIZE
    );
    assert!(!machine.frame_allocator.held);
}

#[test]
fn split_stack_fails_and_leaks_critical_regions() {
    let Setup { mut machine, regs } = setup(1024, split_stack());
    let res = init_memory_management(&mut machine, Ok(regs));
    match res {
        Err(BootError::StackNotContiguous) => {}
        other => panic!("expected StackNotContiguous, got {:?}", other.is_ok()),
    }

    // every region backing running code and the table's storage is still
    // translatable after the failure
    assert!(machine.page_table.is_mapped(0x10_0000)); // text
    assert!(machine.page_table.is_mapped(0x10_2fff)); // text, last byte
    assert!(machine.page_table.is_mapped(0x10_3000)); // rodata
    assert!(machine.page_table.is_mapped(0x10_4000)); // data
    assert!(machine.page_table.is_mapped(0x30_0000)); // higher half
    assert!(machine.page_table.is_mapped(0x1000)); // identity
    assert!(machine.page_table.contains_region(rx(0x10_0000, 0x3000)));

    // the rejected stack candidates were unmapped normally and their frames
    // returned: two one-page ranges
    assert!(!machine.page_table.is_mapped(0x20_1000));
    assert!(!machine.page_table.is_mapped(0x20_3000));
    assert_eq!(machine.frame_allocator.inner.free_frames, 1026);

    // the guard page never had a mapping to begin with
    assert!(!machine.page_table.is_mapped(0x20_0000));

    // the heap was never activated
    assert!(!machine.heap.initialized);
    assert!(!machine.frame_allocator.held);
}

#[test]
fn empty_stack_material_fails_stack_construction() {
    let Setup { mut machine, regs } = setup(1024, Vec::new());
    let res = init_memory_management(&mut machine, Ok(regs));
    assert!(matches!(res, Err(BootError::StackNotContiguous)));
    assert!(machine.page_table.is_mapped(0x10_0000));
    assert_eq!(machine.frame_allocator.inner.free_frames, 1024);
}

#[test]
fn heap_size_exceeding_memory_fails_mapping() {
    // fewer free frames than the configured heap needs
    let Setup { mut machine, regs } = setup(10, contiguous_stack());
    let res = init_memory_management(&mut machine, Ok(regs));
    let err = match res {
        Err(e) => e,
        Ok(_) => panic!("bootstrap must fail when the heap cannot be mapped"),
    };
    assert!(matches!(err, BootError::HeapMappingFailed));
    // the message hints that the configured size may exceed physical memory
    assert!(err.message().contains("KERNEL_HEAP_INITIAL_SIZE"));
    assert!(err.message().contains("physical memory"));

    // no heap state was activated, and allocation against it fails cleanly
    assert!(!machine.heap.initialized);
    assert_eq!(machine.heap.allocate(64), None);
    assert_eq!(machine.heap.allocate(1), None);

    // critical regions survive; the allocator is unchanged and unlocked
    assert!(machine.page_table.is_mapped(0x10_0000));
    assert!(machine.page_table.is_mapped(0x30_0000));
    assert!(machine.page_table.is_mapped(0x20_1000)); // stack stays mapped too
    assert_eq!(machine.frame_allocator.inner.free_frames, 10);
    assert!(!machine.frame_allocator.held);
    assert!(!machine.page_table.is_mapped(KERNEL_HEAP_START));
}

#[test]
fn occupied_heap_range_fails_reservation() {
    let Setup { mut machine, regs } = setup(1024, contiguous_stack());
    // something already sits in the fixed heap range
    machine.page_table.entries.push(rw(KERNEL_HEAP_START, 0x1000));
    let res = init_memory_management(&mut machine, Ok(regs));
    match res {
        Err(BootError::HeapReservationFailed) => {}
        _ => panic!("expected HeapReservationFailed"),
    }
    assert!(!machine.heap.initialized);
    assert_eq!(machine.frame_allocator.inner.free_frames, 1024);
    assert!(machine.page_table.is_mapped(0x10_0000));
    assert!(machine.page_table.is_mapped(0x20_1000));
}

#[test]
fn initializer_error_propagates_unchanged() {
    let Setup { mut machine, regs: _ } = setup(1024, contiguous_stack());
    let before = machine.frame_allocator.inner.free_frames;
    let res = init_memory_management(&mut machine, Err("boot information was inconsistent"));
    match res {
        Err(BootError::AddressSpaceInit(msg)) => {
            assert_eq!(msg, "boot information was inconsistent");
        }
        _ => panic!("expected AddressSpaceInit"),
    }
    assert_eq!(machine.frame_allocator.inner.free_frames, before);
    assert!(!machine.heap.initialized);
}

#[test]
fn second_bootstrap_is_rejected() {
    let Setup { mut machine, regs } = setup(1024, contiguous_stack());
    let first = init_memory_management(&mut machine, Ok(regs));
    assert!(first.is_ok());
    let frames_after_first = machine.frame_allocator.inner.free_frames;

    // a second invocation per boot: the fixed heap range is now occupied, so
    // it fails the heap reservation and changes nothing
    let Setup { machine: _, regs: regs_again } = setup(1024, contiguous_stack());
    let second = init_memory_management(&mut machine, Ok(regs_again));
    match second {
        Err(BootError::HeapReservationFailed) => {}
        _ => panic!("a second bootstrap must be rejected"),
    }
    assert_eq!(machine.frame_allocator.inner.free_frames, frames_after_first);
    assert!(machine.heap.initialized);
    assert!(machine.page_table.is_mapped(KERNEL_HEAP_START));
}

#[test]
fn heap_allocation_works_only_after_activation() {
    let mut heap = KernelHeap::inactive();
    assert_eq!(heap.allocate(16), None);
    heap.init_single_heap(0x1000, 0x100);
    assert_eq!(heap.allocate(16), Some(0x1000));
    assert_eq!(heap.allocate(16), Some(0x1010));
    // exhausting the initial size fails cleanly
    assert_eq!(heap.allocate(0x100), None);
    assert_eq!(heap.used, 32);
}

#[test]
fn error_messages_are_distinct_and_static() {
    let msgs = [
        BootError::StackNotContiguous.message(),
        BootError::HeapReservationFailed.message(),
        BootError::HeapMappingFailed.message(),
        BootError::AddressSpaceInit("out of memory").message(),
        BootError::PostHeapFinalize("finalizer failed").message(),
    ];
    for (i, a) in msgs.iter().enumerate() {
        for (j, b) in msgs.iter().enumerate() {
            if i != j {
                assert_ne!(a, b);
            }
        }
    }
    assert_eq!(
        BootError::StackNotContiguous.message(),
        "initial stack was not contiguous in virtual memory"
    );
    assert_eq!(BootError::AddressSpaceInit("out of memory").message(), "out of memory");
}
