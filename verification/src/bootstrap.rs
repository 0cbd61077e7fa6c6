//! The boot orchestrator.
//!
//! Drives the bootstrap steps that follow the address-space initializer:
//! building the initial stack, reserving and mapping the kernel heap,
//! activating the heap, and assembling the kernel memory-management handle.
//! The central rule is leak-on-critical-failure: once the initializer has
//! returned regions that back the currently executing code, data, and the new
//! page table's own storage, no failure path may trigger their unmap side
//! effect — their handles are discarded instead — while resources not yet in
//! use (the rejected stack candidate pages, an unfinished heap reservation)
//! are cleaned up normally.

use vstd::prelude::*;
use crate::config::{KERNEL_HEAP_INITIAL_SIZE, KERNEL_HEAP_START, PAGE_SIZE};
use crate::frames::FrameAllocatorMutex;
use crate::heap::KernelHeap;
use crate::page_table::{
    lemma_sum_pages_bounds_elem, lemma_sum_pages_nonneg, lemma_sum_pages_push, sum_pages,
    PageTable,
};
use crate::region::{heap_flags, spec_heap_flags, GuardPage, MappedRegion};
use crate::stack::{contiguous_after, Stack};

verus! {

/// The machine state the orchestrator mutates: the active page table, the
/// locked physical-frame allocator, and the kernel heap.
#[derive(Debug)]
pub struct Machine {
    pub page_table: PageTable,
    pub frame_allocator: FrameAllocatorMutex,
    pub heap: KernelHeap,
}

impl Machine {
    /// Sane machine state: well-formed table, lock free, heap well-formed,
    /// and frame accounting that cannot overflow (free frames plus frames
    /// behind present entries fit in a machine word).
    pub open spec fn wf(self) -> bool {
        &&& self.page_table.wf()
        &&& !self.frame_allocator.held
        &&& self.heap.wf()
        &&& self.frame_allocator.inner.free_frames as int + sum_pages(self.page_table.entries@)
            <= u64::MAX as int
    }
}

/// Nothing observable about the machine differs.
pub open spec fn machine_unchanged(a: Machine, b: Machine) -> bool {
    &&& a.page_table.entries@ == b.page_table.entries@
    &&& a.frame_allocator == b.frame_allocator
    &&& a.heap == b.heap
}

/// Output of the external address-space initializer, as handed to the
/// orchestrator: the critical section mappings, the raw stack material (not
/// yet validated for contiguity), the new table's own backing regions, and
/// the transient identity mappings.
#[derive(Debug)]
pub struct AddressSpaceRegions {
    pub text: MappedRegion,
    pub rodata: MappedRegion,
    pub data: MappedRegion,
    pub stack_guard: GuardPage,
    pub stack_pages: Vec<MappedRegion>,
    pub higher_half: Vec<MappedRegion>,
    pub identity: Vec<MappedRegion>,
}

/// The aggregate state of the bootstrapped address space, to be shared
/// kernel-wide behind a lock after bootstrap: the regions the kernel must
/// never release — the table's own backing store and the heap mapping.
#[derive(Debug)]
pub struct KernelMmi {
    pub higher_half: Vec<MappedRegion>,
    pub heap_region: MappedRegion,
}

/// Everything a successful bootstrap hands back to the boot entry point.
/// The caller must keep the handle, the three section regions and the stack
/// resident for the kernel's whole lifetime, and release the identity
/// regions before starting the first less-trusted execution context.
#[derive(Debug)]
pub struct BootSuccess {
    pub kernel_mmi: KernelMmi,
    pub text: MappedRegion,
    pub rodata: MappedRegion,
    pub data: MappedRegion,
    pub stack: Stack,
    pub identity_regions: Vec<MappedRegion>,
}

/// The terminal bootstrap errors. None is retried: paging state cannot be
/// safely tried again once partially mutated.
#[derive(Debug)]
pub enum BootError {
    /// Propagated unchanged from the address-space initializer.
    AddressSpaceInit(&'static str),
    /// The stack page material and guard page do not form one contiguous
    /// virtual range.
    StackNotContiguous,
    /// The fixed heap virtual range is unavailable.
    HeapReservationFailed,
    /// The heap range was reserved but mapping its physical frames failed.
    HeapMappingFailed,
    /// Propagated from the post-heap finalizer. The finalizer modeled here is
    /// infallible, so this crate never constructs the variant; it is kept so
    /// that a richer finalizer's failure has a place in the taxonomy. Whether
    /// such a failure should leak the by-then-live heap mapping is an open
    /// design question, deliberately not decided here.
    PostHeapFinalize(&'static str),
}

impl BootError {
    /// The static human-readable message surfaced to the boot entry point.
    pub fn message(&self) -> (r: &'static str)
        ensures
            self is AddressSpaceInit ==> r == self->AddressSpaceInit_0,
            self is StackNotContiguous ==> r@ == "initial stack was not contiguous in virtual memory"@,
            self is HeapReservationFailed ==> r@ == "could not reserve the fixed kernel heap virtual range"@,
            self is HeapMappingFailed ==> r@ == "failed to map the kernel heap memory: perhaps the KERNEL_HEAP_INITIAL_SIZE exceeds the size of the system's physical memory"@,
            self is PostHeapFinalize ==> r == self->PostHeapFinalize_0,
    {
        match self {
            BootError::AddressSpaceInit(msg) => msg,
            BootError::StackNotContiguous => "initial stack was not contiguous in virtual memory",
            BootError::HeapReservationFailed => "could not reserve the fixed kernel heap virtual range",
            BootError::HeapMappingFailed => "failed to map the kernel heap memory: perhaps the KERNEL_HEAP_INITIAL_SIZE exceeds the size of the system's physical memory",
            BootError::PostHeapFinalize(msg) => msg,
        }
    }
}

/// Whether some region of `s` covers `a`.
pub open spec fn covered_by_any(s: Seq<MappedRegion>, a: int) -> bool {
    exists|i: int| 0 <= i < s.len() && (#[trigger] s[i]).covers(a)
}

/// Whether `a` lies in a region that backs currently executing code or data,
/// or the table's own storage: the regions whose unmap would fault the CPU.
pub open spec fn critical_covers(regs: AddressSpaceRegions, a: int) -> bool {
    ||| regs.text.covers(a)
    ||| regs.rodata.covers(a)
    ||| regs.data.covers(a)
    ||| covered_by_any(regs.higher_half@, a)
    ||| covered_by_any(regs.identity@, a)
}

/// Every region of `s` is well-formed and present in the table.
pub open spec fn all_wf_and_present(pt: PageTable, s: Seq<MappedRegion>) -> bool {
    forall|i: int|
        0 <= i < s.len() ==> ((#[trigger] s[i]).wf() && pt.spec_contains(s[i]))
}

/// `r` shares no address with any region of `s`.
pub open spec fn disjoint_from_all(r: MappedRegion, s: Seq<MappedRegion>) -> bool {
    forall|i: int| 0 <= i < s.len() ==> r.disjoint(#[trigger] s[i])
}

/// No region of `x` shares an address with a region of `y`.
pub open spec fn seqs_disjoint(x: Seq<MappedRegion>, y: Seq<MappedRegion>) -> bool {
    forall|i: int| 0 <= i < x.len() ==> disjoint_from_all(#[trigger] x[i], y)
}

/// The guard page has no present entry: its defining property.
pub open spec fn guard_unmapped(pt: PageTable, g: GuardPage) -> bool {
    forall|i: int|
        0 <= i < pt.entries@.len() ==> ((#[trigger] pt.entries@[i]).end() <= g.start as int
            || g.end() <= pt.entries@[i].start as int)
}

/// Validity of the initializer's output against the live table: every handed
/// region is a present, well-formed entry; distinct live regions alias no
/// address (so no frame is referenced by two handles); the guard page is
/// unmapped; and the not-yet-live stack candidates share nothing with the
/// critical regions.
pub open spec fn regions_wf(pt: PageTable, regs: AddressSpaceRegions) -> bool {
    &&& regs.text.wf() && pt.spec_contains(regs.text)
    &&& regs.rodata.wf() && pt.spec_contains(regs.rodata)
    &&& regs.data.wf() && pt.spec_contains(regs.data)
    &&& regs.stack_guard.wf()
    &&& guard_unmapped(pt, regs.stack_guard)
    &&& all_wf_and_present(pt, regs.stack_pages@)
    &&& all_wf_and_present(pt, regs.higher_half@)
    &&& all_wf_and_present(pt, regs.identity@)
    &&& forall|i: int, j: int|
        0 <= i < j < regs.stack_pages@.len() ==> regs.stack_pages@[i].disjoint(
            regs.stack_pages@[j],
        )
    &&& disjoint_from_all(regs.text, regs.stack_pages@)
    &&& disjoint_from_all(regs.rodata, regs.stack_pages@)
    &&& disjoint_from_all(regs.data, regs.stack_pages@)
    &&& seqs_disjoint(regs.higher_half@, regs.stack_pages@)
    &&& seqs_disjoint(regs.identity@, regs.stack_pages@)
}

/// Whether the fixed heap range intersects no present entry.
pub open spec fn heap_range_available(pt: PageTable) -> bool {
    pt.spec_range_free(KERNEL_HEAP_START as int, KERNEL_HEAP_INITIAL_SIZE as int)
}

/// The region the heap is mapped over.
pub open spec fn spec_heap_region() -> MappedRegion {
    MappedRegion {
        start: KERNEL_HEAP_START,
        size: KERNEL_HEAP_INITIAL_SIZE,
        flags: spec_heap_flags(),
    }
}

/// Frames the heap mapping consumes.
pub open spec fn heap_pages_needed() -> int {
    KERNEL_HEAP_INITIAL_SIZE as int / PAGE_SIZE as int
}

/// The configured heap constants are page-aligned and addressable.
pub proof fn lemma_heap_constants()
    ensures
        KERNEL_HEAP_START as int % PAGE_SIZE as int == 0,
        KERNEL_HEAP_INITIAL_SIZE as int % PAGE_SIZE as int == 0,
        KERNEL_HEAP_INITIAL_SIZE > 0,
        KERNEL_HEAP_START as int + KERNEL_HEAP_INITIAL_SIZE as int <= u64::MAX as int,
        heap_pages_needed() == 256,
        spec_heap_region().wf(),
{
    assert(KERNEL_HEAP_START as int % PAGE_SIZE as int == 0) by (nonlinear_arith);
    assert(KERNEL_HEAP_INITIAL_SIZE as int % PAGE_SIZE as int == 0) by (nonlinear_arith);
    assert(KERNEL_HEAP_INITIAL_SIZE as int / PAGE_SIZE as int == 256) by (nonlinear_arith);
}

/// Law: the bootstrap runs exactly once per boot. After a successful run the
/// installed heap region occupies the fixed heap range, so by
/// `init_memory_management`'s contract every further invocation returns
/// `HeapReservationFailed` and leaves the machine unchanged.
pub proof fn lemma_second_bootstrap_rejected(m: Machine)
    requires
        m.page_table.spec_contains(spec_heap_region()),
    ensures
        !heap_range_available(m.page_table),
{
    lemma_heap_constants();
    let i = choose|i: int|
        0 <= i < m.page_table.entries@.len() && m.page_table.entries@[i] == spec_heap_region();
    assert(!(m.page_table.entries@[i].end() <= KERNEL_HEAP_START as int || KERNEL_HEAP_START as int
        + KERNEL_HEAP_INITIAL_SIZE as int <= m.page_table.entries@[i].start as int));
}

proof fn lemma_subrange_contains_step(s: Seq<MappedRegion>, i: int, r: MappedRegion)
    requires
        0 <= i < s.len(),
    ensures
        s.subrange(0, i + 1).contains(r) <==> (s.subrange(0, i).contains(r) || s[i] == r),
{
    let t0 = s.subrange(0, i);
    let t1 = s.subrange(0, i + 1);
    assert(t1 =~= t0.push(s[i]));
    if t1.contains(r) {
        let j = choose|j: int| 0 <= j < t1.len() && t1[j] == r;
        if j < i {
            assert(t0[j] == r);
        }
    }
    if t0.contains(r) {
        let j = choose|j: int| 0 <= j < t0.len() && t0[j] == r;
        assert(t1[j] == r);
    }
    if s[i] == r {
        assert(t1[i] == r);
    }
}

proof fn lemma_subrange_covered_step(s: Seq<MappedRegion>, i: int, a: int)
    requires
        0 <= i < s.len(),
    ensures
        covered_by_any(s.subrange(0, i + 1), a) <==> (covered_by_any(s.subrange(0, i), a)
            || s[i].covers(a)),
{
    let t0 = s.subrange(0, i);
    let t1 = s.subrange(0, i + 1);
    assert(t1 =~= t0.push(s[i]));
    if covered_by_any(t1, a) {
        let j = choose|j: int| 0 <= j < t1.len() && (#[trigger] t1[j]).covers(a);
        if j < i {
            assert(t0[j].covers(a));
        }
    }
    if covered_by_any(t0, a) {
        let j = choose|j: int| 0 <= j < t0.len() && (#[trigger] t0[j]).covers(a);
        assert(t1[j].covers(a));
    }
    if s[i].covers(a) {
        assert(t1[i].covers(a));
    }
}

/// The external post-heap finalizer, modeled as the aggregation it performs:
/// it takes the surviving mapping lists plus the heap mapping, produces the
/// shareable kernel memory-management state, and hands the identity-mapped
/// regions back unfiltered for the caller to release later.
pub fn init_post_heap(
    higher_half: Vec<MappedRegion>,
    identity: Vec<MappedRegion>,
    heap_region: MappedRegion,
) -> (r: (KernelMmi, Vec<MappedRegion>))
    ensures
        r.0.higher_half@ == higher_half@,
        r.0.heap_region == heap_region,
        r.1@ == identity@,
{
    (KernelMmi { higher_half, heap_region }, identity)
}

/// Initializes the virtual memory management system on top of the
/// address-space initializer's output.
///
/// Sequenced steps: validate and build the initial stack; reserve the fixed
/// heap virtual range; map it under the frame-allocator lock; activate the
/// heap; assemble the kernel memory-management handle. Success is owed
/// exactly when the initializer succeeded, the stack material is one
/// contiguous range adjoining the guard page, the fixed heap range is free,
/// and enough physical frames remain.
///
/// The failure discipline is stated for every error: whatever fails, each
/// region backing currently executing code, data, or the table's own storage
/// stays present and translatable. Only the never-used stack candidates are
/// unmapped (on the stack failure), and an unfinished heap reservation is
/// released; the frame-allocator lock is free again on every path.
#[verifier::loop_isolation(false)]
#[verifier::rlimit(100)]
pub fn init_memory_management(
    machine: &mut Machine,
    init_result: Result<AddressSpaceRegions, &'static str>,
) -> (res: Result<BootSuccess, BootError>)
    requires
        old(machine).wf(),
        init_result is Ok ==> regions_wf(old(machine).page_table, init_result->Ok_0),
    ensures
        final(machine).wf(),
        // step 1 failure: propagated unchanged, nothing critical exists yet
        (res is Err && res->Err_0 is AddressSpaceInit) <==> init_result is Err,
        init_result is Err ==> (res->Err_0 == BootError::AddressSpaceInit(init_result->Err_0)
            && machine_unchanged(*old(machine), *final(machine))),
        // step 2 failure: exactly when the stack material is not contiguous
        (res is Err && res->Err_0 is StackNotContiguous) <==> (init_result is Ok
            && !contiguous_after(
            init_result->Ok_0.stack_guard.end(),
            init_result->Ok_0.stack_pages@,
        )),
        (res is Err && res->Err_0 is StackNotContiguous) ==> {
            &&& forall|r: MappedRegion|
                final(machine).page_table.spec_contains(r) <==> (old(
                    machine,
                ).page_table.spec_contains(r)
                    && !init_result->Ok_0.stack_pages@.contains(r))
            &&& forall|a: int|
                final(machine).page_table.spec_is_mapped(a) <==> (old(
                    machine,
                ).page_table.spec_is_mapped(a) && !covered_by_any(
                    init_result->Ok_0.stack_pages@,
                    a,
                ))
            &&& final(machine).heap == old(machine).heap
            &&& final(machine).frame_allocator.inner.free_frames as int == old(
                machine,
            ).frame_allocator.inner.free_frames as int + sum_pages(
                init_result->Ok_0.stack_pages@,
            )
        },
        // step 3 failure: exactly when the fixed heap range is occupied
        (res is Err && res->Err_0 is HeapReservationFailed) <==> (init_result is Ok
            && contiguous_after(
            init_result->Ok_0.stack_guard.end(),
            init_result->Ok_0.stack_pages@,
        ) && !heap_range_available(old(machine).page_table)),
        (res is Err && res->Err_0 is HeapReservationFailed) ==> machine_unchanged(
            *old(machine),
            *final(machine),
        ),
        // step 4 failure: exactly when too few physical frames remain
        (res is Err && res->Err_0 is HeapMappingFailed) <==> (init_result is Ok
            && contiguous_after(
            init_result->Ok_0.stack_guard.end(),
            init_result->Ok_0.stack_pages@,
        ) && heap_range_available(old(machine).page_table) && (old(
            machine,
        ).frame_allocator.inner.free_frames as int) < heap_pages_needed()),
        (res is Err && res->Err_0 is HeapMappingFailed) ==> machine_unchanged(
            *old(machine),
            *final(machine),
        ),
        res is Err ==> !(res->Err_0 is PostHeapFinalize),
        // full success: all-or-nothing
        res is Ok <==> (init_result is Ok && contiguous_after(
            init_result->Ok_0.stack_guard.end(),
            init_result->Ok_0.stack_pages@,
        ) && heap_range_available(old(machine).page_table) && old(
            machine,
        ).frame_allocator.inner.free_frames as int >= heap_pages_needed()),
        res is Ok ==> {
            &&& final(machine).page_table.entries@ == old(machine).page_table.entries@.push(
                spec_heap_region(),
            )
            &&& final(machine).heap == (KernelHeap {
                initialized: true,
                start: KERNEL_HEAP_START,
                size: KERNEL_HEAP_INITIAL_SIZE,
                used: 0,
            })
            &&& final(machine).frame_allocator.inner.free_frames as int == old(
                machine,
            ).frame_allocator.inner.free_frames as int - heap_pages_needed()
            &&& res->Ok_0.text == init_result->Ok_0.text
            &&& res->Ok_0.rodata == init_result->Ok_0.rodata
            &&& res->Ok_0.data == init_result->Ok_0.data
            &&& res->Ok_0.stack.wf()
            &&& res->Ok_0.stack.guard == init_result->Ok_0.stack_guard
            &&& res->Ok_0.stack.pages.start as int == init_result->Ok_0.stack_guard.end()
            &&& res->Ok_0.stack.spec_top() == init_result->Ok_0.stack_pages@.last().end()
            &&& res->Ok_0.identity_regions@ == init_result->Ok_0.identity@
            &&& res->Ok_0.kernel_mmi.higher_half@ == init_result->Ok_0.higher_half@
            &&& res->Ok_0.kernel_mmi.heap_region == spec_heap_region()
        },
        // leak-on-critical-failure: whatever failed, every region backing
        // executing code, data, or the table's own storage stays translatable
        res is Err && init_result is Ok ==> forall|a: int|
            critical_covers(init_result->Ok_0, a) && old(machine).page_table.spec_is_mapped(a)
                ==> #[trigger] final(machine).page_table.spec_is_mapped(a),
{
    proof {
        lemma_heap_constants();
    }
    let regs = match init_result {
        Ok(r) => r,
        Err(msg) => {
            return Err(BootError::AddressSpaceInit(msg));
        },
    };
    let AddressSpaceRegions { text, rodata, data, stack_guard, stack_pages, higher_half, identity }
        = regs;
    let ghost cands = stack_pages@;
    let ghost entries0 = machine.page_table.entries@;
    let ghost free0 = machine.frame_allocator.inner.free_frames as int;

    // step 2: build the initial stack from the raw material
    let stack = match Stack::from_pages(stack_guard, stack_pages) {
        Ok(s) => s,
        Err((_bad_guard, bad_pages)) => {
            // the critical handles are discarded — released without their
            // unmap side effect; dropping the higher-half and identity lists
            // does the same, since unmap happens only by the explicit call —
            // while the never-used stack pages are unmapped normally
            text.discard();
            rodata.discard();
            data.discard();
            let n = bad_pages.len();
            let mut i: usize = 0;
            while i < n
                invariant
                    i <= n,
                    machine.page_table.wf(),
                    !machine.frame_allocator.held,
                    machine.heap == old(machine).heap,
                    machine.frame_allocator.inner.free_frames as int == free0 + sum_pages(
                        cands.subrange(0, i as int),
                    ),
                    machine.frame_allocator.inner.free_frames as int + sum_pages(
                        machine.page_table.entries@,
                    ) == free0 + sum_pages(entries0),
                    forall|j: int|
                        i <= j < n ==> machine.page_table.spec_contains(#[trigger] cands[j]),
                    forall|r: MappedRegion| #![trigger machine.page_table.spec_contains(r)]
                        machine.page_table.spec_contains(r) <==> (entries0.contains(r)
                            && !cands.subrange(0, i as int).contains(r)),
                    forall|a: int| #![trigger machine.page_table.spec_is_mapped(a)]
                        machine.page_table.spec_is_mapped(a) <==> (old(
                            machine,
                        ).page_table.spec_is_mapped(a) && !covered_by_any(
                            cands.subrange(0, i as int),
                            a,
                        )),
                decreases n - i,
            {
                let r = bad_pages[i];
                let ghost pre_entries = machine.page_table.entries@;
                proof {
                    let idx = choose|k: int|
                        0 <= k < pre_entries.len() && pre_entries[k] == r;
                    lemma_sum_pages_bounds_elem(pre_entries, idx);
                }
                machine.page_table.unmap(r, &mut machine.frame_allocator);
                proof {
                    let sub_i = cands.subrange(0, i as int);
                    let sub_i1 = cands.subrange(0, i as int + 1);
                    lemma_sum_pages_push(sub_i, cands[i as int]);
                    assert(sub_i1 =~= sub_i.push(cands[i as int]));
                    assert forall|r2: MappedRegion| #![trigger machine.page_table.spec_contains(r2)]
                        machine.page_table.spec_contains(r2) <==> (entries0.contains(r2)
                            && !sub_i1.contains(r2)) by {
                        lemma_subrange_contains_step(cands, i as int, r2);
                    }
                    assert forall|a: int| #![trigger machine.page_table.spec_is_mapped(a)]
                        machine.page_table.spec_is_mapped(a) <==> (old(
                            machine,
                        ).page_table.spec_is_mapped(a) && !covered_by_any(sub_i1, a)) by {
                        lemma_subrange_covered_step(cands, i as int, a);
                    }
                    assert forall|j: int|
                        i + 1 <= j < n implies machine.page_table.spec_contains(
                        #[trigger] cands[j],
                    ) by {
                        assert(cands[j].disjoint(cands[i as int]) || cands[i as int].disjoint(
                            cands[j],
                        ));
                        assert(cands[j].wf());
                        assert(cands[j] != cands[i as int]);
                    }
                }
                i += 1;
            }
            proof {
                assert(cands.subrange(0, n as int) =~= cands);
                assert forall|a: int|
                    critical_covers(init_result->Ok_0, a) && old(
                        machine,
                    ).page_table.spec_is_mapped(a) implies #[trigger] machine.page_table.spec_is_mapped(
                    a,
                ) by {
                    if covered_by_any(cands, a) {
                        let j = choose|j: int| 0 <= j < cands.len() && (#[trigger] cands[j]).covers(a);
                        if covered_by_any(init_result->Ok_0.higher_half@, a) {
                            let k = choose|k: int|
                                0 <= k < init_result->Ok_0.higher_half@.len() && (
                                #[trigger] init_result->Ok_0.higher_half@[k]).covers(a);
                            assert(init_result->Ok_0.higher_half@[k].disjoint(cands[j]));
                        }
                        if covered_by_any(init_result->Ok_0.identity@, a) {
                            let k = choose|k: int|
                                0 <= k < init_result->Ok_0.identity@.len() && (
                                #[trigger] init_result->Ok_0.identity@[k]).covers(a);
                            assert(init_result->Ok_0.identity@[k].disjoint(cands[j]));
                        }
                        assert(init_result->Ok_0.text.disjoint(cands[j]));
                        assert(init_result->Ok_0.rodata.disjoint(cands[j]));
                        assert(init_result->Ok_0.data.disjoint(cands[j]));
                        assert(false);
                    }
                }
            }
            return Err(BootError::StackNotContiguous);
        },
    };

    // step 3: reserve the fixed heap virtual range
    let pages = match machine.page_table.allocate_pages_by_bytes_at(
        KERNEL_HEAP_START,
        KERNEL_HEAP_INITIAL_SIZE,
    ) {
        Some(p) => p,
        None => {
            // the stack is about to become live and the step-1 regions back
            // running code: all of them are discarded, none unmapped
            text.discard();
            rodata.discard();
            data.discard();
            return Err(BootError::HeapReservationFailed);
        },
    };

    // step 4: map the reserved range under the frame-allocator lock
    machine.frame_allocator.lock();
    let heap_mp = match machine.page_table.map_allocated_pages(
        pages,
        heap_flags(),
        &mut machine.frame_allocator,
    ) {
        Ok(mp) => {
            machine.frame_allocator.unlock();
            mp
        },
        Err(_e) => {
            machine.frame_allocator.unlock();
            // same discipline: the reservation itself carried no mapping and
            // is released by dropping it; everything critical is discarded
            text.discard();
            rodata.discard();
            data.discard();
            return Err(BootError::HeapMappingFailed);
        },
    };
    proof {
        lemma_sum_pages_push(old(machine).page_table.entries@, spec_heap_region());
    }

    // step 5: activate the heap — infallible, the range is mapped by now
    machine.heap.init_single_heap(KERNEL_HEAP_START, KERNEL_HEAP_INITIAL_SIZE);

    // step 6: assemble the shareable kernel memory-management state
    let (kernel_mmi, identity_regions) = init_post_heap(higher_half, identity, heap_mp);

    Ok(BootSuccess { kernel_mmi, text, rodata, data, stack, identity_regions })
}

} // verus!
