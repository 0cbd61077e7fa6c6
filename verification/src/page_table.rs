//! Model of the root paging structure of one address space.
//!
//! The table is modeled by the set of virtual ranges that currently have
//! present entries, kept as a sequence of pairwise-disjoint, well-formed
//! regions. Mapping installs entries and consumes physical frames; unmapping
//! removes entries and returns the frames. An address is translatable exactly
//! when some entry covers it.

use vstd::prelude::*;
use crate::config::PAGE_SIZE;
use crate::frames::FrameAllocatorMutex;
use crate::region::{AllocatedPages, MappedRegion, MappingFlags};

verus! {

/// Total number of frames backing a sequence of regions.
pub open spec fn sum_pages(s: Seq<MappedRegion>) -> int
    decreases s.len(),
{
    if s.len() == 0 {
        0
    } else {
        sum_pages(s.drop_last()) + s.last().pages()
    }
}

pub proof fn lemma_sum_pages_nonneg(s: Seq<MappedRegion>)
    ensures
        sum_pages(s) >= 0,
    decreases s.len(),
{
    if s.len() > 0 {
        lemma_sum_pages_nonneg(s.drop_last());
        assert(s.last().pages() >= 0) by {
            assert(s.last().size as int / PAGE_SIZE as int >= 0) by (nonlinear_arith);
        }
    }
}

pub proof fn lemma_sum_pages_push(s: Seq<MappedRegion>, r: MappedRegion)
    ensures
        sum_pages(s.push(r)) == sum_pages(s) + r.pages(),
{
    assert(s.push(r).drop_last() =~= s);
    assert(s.push(r).last() == r);
}

pub proof fn lemma_sum_pages_remove(s: Seq<MappedRegion>, i: int)
    requires
        0 <= i < s.len(),
    ensures
        sum_pages(s.remove(i)) == sum_pages(s) - s[i].pages(),
    decreases s.len(),
{
    s.remove_ensures(i);
    if i == s.len() - 1 {
        assert(s.remove(i) =~= s.drop_last());
    } else {
        let t = s.remove(i);
        assert(t.len() == s.len() - 1);
        assert(t.drop_last() =~= s.drop_last().remove(i));
        assert(t.last() == s.last());
        lemma_sum_pages_remove(s.drop_last(), i);
    }
}

/// A region occurring in a sequence contributes at most the whole sum.
pub proof fn lemma_sum_pages_bounds_elem(s: Seq<MappedRegion>, i: int)
    requires
        0 <= i < s.len(),
    ensures
        sum_pages(s) >= s[i].pages(),
{
    lemma_sum_pages_remove(s, i);
    lemma_sum_pages_nonneg(s.remove(i));
}

/// The root paging structure of one address space, modeled by the virtual
/// ranges that currently have present entries.
#[derive(Debug)]
pub struct PageTable {
    pub entries: Vec<MappedRegion>,
}

impl PageTable {
    /// Every entry is well-formed and no two entries share an address.
    pub open spec fn wf(self) -> bool {
        &&& forall|i: int|
            0 <= i < self.entries@.len() ==> (#[trigger] self.entries@[i]).wf()
        &&& forall|i: int, j: int|
            0 <= i < j < self.entries@.len() ==> self.entries@[i].disjoint(self.entries@[j])
    }

    /// Whether `r` is one of the present entries.
    pub open spec fn spec_contains(self, r: MappedRegion) -> bool {
        self.entries@.contains(r)
    }

    /// Whether the table translates `addr`.
    pub open spec fn spec_is_mapped(self, addr: int) -> bool {
        exists|i: int|
            0 <= i < self.entries@.len() && (#[trigger] self.entries@[i]).covers(addr)
    }

    /// Whether no present entry intersects `[start, start + size)`.
    pub open spec fn spec_range_free(self, start: int, size: int) -> bool {
        forall|i: int|
            0 <= i < self.entries@.len() ==> ((#[trigger] self.entries@[i]).end() <= start
                || start + size <= self.entries@[i].start as int)
    }

    /// Looks an address up in the table: whether it is translatable.
    pub fn is_mapped(&self, addr: u64) -> (r: bool)
        requires
            self.wf(),
        ensures
            r == self.spec_is_mapped(addr as int),
    {
        let n = self.entries.len();
        let mut i: usize = 0;
        while i < n
            invariant
                i <= n,
                n == self.entries@.len(),
                self.wf(),
                forall|j: int| 0 <= j < i ==> !(#[trigger] self.entries@[j]).covers(addr as int),
            decreases n - i,
        {
            let e = self.entries[i];
            if e.start <= addr && addr - e.start < e.size {
                return true;
            }
            i += 1;
        }
        false
    }

    /// Whether `r` is one of the present entries.
    pub fn contains_region(&self, r: MappedRegion) -> (res: bool)
        ensures
            res == self.spec_contains(r),
    {
        let n = self.entries.len();
        let mut i: usize = 0;
        while i < n
            invariant
                i <= n,
                n == self.entries@.len(),
                forall|j: int| 0 <= j < i ==> self.entries@[j] != r,
            decreases n - i,
        {
            if self.entries[i] == r {
                return true;
            }
            i += 1;
        }
        false
    }

    /// Index of the entry equal to `r`.
    fn find_entry(&self, r: MappedRegion) -> (idx: usize)
        requires
            self.spec_contains(r),
        ensures
            idx < self.entries@.len(),
            self.entries@[idx as int] == r,
    {
        let n = self.entries.len();
        let mut i: usize = 0;
        while i < n
            invariant
                i <= n,
                n == self.entries@.len(),
                self.spec_contains(r),
                forall|j: int| 0 <= j < i ==> self.entries@[j] != r,
            decreases n - i,
        {
            if self.entries[i] == r {
                return i;
            }
            i += 1;
        }
        proof {
            let k = choose|k: int| 0 <= k < self.entries@.len() && self.entries@[k] == r;
            assert(false);
        }
        0
    }

    /// Reserve the exact virtual range `[start, start + size)`.
    ///
    /// Succeeds exactly when the range is page-aligned, non-empty, fits in the
    /// address space, and intersects no present entry. The reservation carries
    /// no page-table entries yet.
    pub fn allocate_pages_by_bytes_at(&self, start: u64, size: u64) -> (r: Option<AllocatedPages>)
        requires
            self.wf(),
        ensures
            r is Some <==> {
                &&& start as int % PAGE_SIZE as int == 0
                &&& size as int % PAGE_SIZE as int == 0
                &&& size > 0
                &&& start as int + size as int <= u64::MAX as int
                &&& self.spec_range_free(start as int, size as int)
            },
            r is Some ==> r->Some_0 == (AllocatedPages { start, size }),
    {
        if start % PAGE_SIZE != 0 || size % PAGE_SIZE != 0 || size == 0 {
            return None;
        }
        if size > u64::MAX - start {
            return None;
        }
        let n = self.entries.len();
        let mut i: usize = 0;
        while i < n
            invariant
                i <= n,
                n == self.entries@.len(),
                self.wf(),
                start as int + size as int <= u64::MAX as int,
                forall|j: int|
                    0 <= j < i ==> ((#[trigger] self.entries@[j]).end() <= start as int
                        || start as int + size as int <= self.entries@[j].start as int),
            decreases n - i,
        {
            let e = self.entries[i];
            if e.start < start + size && start < e.start + e.size {
                return None;
            }
            i += 1;
        }
        Some(AllocatedPages { start, size })
    }

    /// Map a reserved range, drawing the backing frames from the allocator.
    ///
    /// The caller must hold the frame-allocator lock. The operation is
    /// all-or-nothing: it succeeds exactly when enough free frames exist, and
    /// on failure neither the table nor the allocator has changed.
    pub fn map_allocated_pages(
        &mut self,
        pages: AllocatedPages,
        flags: MappingFlags,
        fa: &mut FrameAllocatorMutex,
    ) -> (r: Result<MappedRegion, &'static str>)
        requires
            old(self).wf(),
            pages.wf(),
            old(self).spec_range_free(pages.start as int, pages.size as int),
            old(fa).held,
        ensures
            final(fa).held,
            r is Ok <==> old(fa).inner.free_frames as int >= pages.size as int / PAGE_SIZE as int,
            r is Ok ==> {
                &&& r->Ok_0 == (MappedRegion { start: pages.start, size: pages.size, flags })
                &&& final(self).entries@ == old(self).entries@.push(r->Ok_0)
                &&& final(self).wf()
                &&& final(fa).inner.free_frames as int == old(fa).inner.free_frames as int
                    - pages.size as int / PAGE_SIZE as int
                &&& sum_pages(final(self).entries@) == sum_pages(old(self).entries@)
                    + pages.size as int / PAGE_SIZE as int
            },
            r is Err ==> {
                &&& final(self).entries@ == old(self).entries@
                &&& *final(fa) == *old(fa)
            },
    {
        let needed = pages.size / PAGE_SIZE;
        if fa.inner.free_frames < needed {
            return Err("insufficient physical frames to map the requested range");
        }
        fa.inner.free_frames = fa.inner.free_frames - needed;
        let region = MappedRegion { start: pages.start, size: pages.size, flags };
        proof {
            assert forall|i: int| 0 <= i < self.entries@.len() implies (#[trigger] self.entries@[i])
                .disjoint(region) by {
                assert(self.entries@[i].end() <= pages.start as int || pages.start as int
                    + pages.size as int <= self.entries@[i].start as int);
            }
            lemma_sum_pages_push(self.entries@, region);
        }
        self.entries.push(region);
        Ok(region)
    }

    /// Remove the entry equal to `region` and return its frames.
    ///
    /// This is the unmap side effect that the failure discipline is about:
    /// after the call the range is no longer translatable. The lock is taken
    /// for just this one mutation and released before returning.
    pub fn unmap(&mut self, region: MappedRegion, fa: &mut FrameAllocatorMutex)
        requires
            old(self).wf(),
            old(self).spec_contains(region),
            !old(fa).held,
            old(fa).inner.free_frames as int + region.pages() <= u64::MAX as int,
        ensures
            final(self).wf(),
            !final(fa).held,
            final(fa).inner.free_frames as int == old(fa).inner.free_frames as int
                + region.pages(),
            forall|r: MappedRegion|
                #[trigger] final(self).spec_contains(r) <==> (old(self).spec_contains(r) && r
                    != region),
            forall|a: int|
                #[trigger] final(self).spec_is_mapped(a) <==> (old(self).spec_is_mapped(a)
                    && !region.covers(a)),
            sum_pages(final(self).entries@) == sum_pages(old(self).entries@) - region.pages(),
    {
        let idx = self.find_entry(region);
        let ghost s = self.entries@;
        let ghost i = idx as int;
        let _ = self.entries.remove(idx);
        proof {
            s.remove_ensures(i);
            lemma_sum_pages_remove(s, i);
            let t = self.entries@;
            assert(t == s.remove(i));
            assert(region.wf());
            // the removed entry overlaps itself, so no other entry equals it
            assert forall|j: int| 0 <= j < s.len() && j != i implies s[j] != region by {
                if j < i {
                    assert(s[j].disjoint(s[i]));
                } else {
                    assert(s[i].disjoint(s[j]));
                }
                assert(region.end() > region.start as int);
            }
            assert forall|p: int, q: int| 0 <= p < q < t.len() implies t[p].disjoint(t[q]) by {
                let p0 = if p < i { p } else { p + 1 };
                let q0 = if q < i { q } else { q + 1 };
                assert(t[p] == s[p0]);
                assert(t[q] == s[q0]);
                assert(s[p0].disjoint(s[q0]));
            }
            assert forall|j: int| 0 <= j < t.len() implies (#[trigger] t[j]).wf() by {
                let j0 = if j < i { j } else { j + 1 };
                assert(t[j] == s[j0]);
            }
            assert forall|r: MappedRegion| #[trigger]
                t.contains(r) == (s.contains(r) && r != region) by {
                if t.contains(r) {
                    let j = choose|j: int| 0 <= j < t.len() && t[j] == r;
                    let j0 = if j < i { j } else { j + 1 };
                    assert(t[j] == s[j0]);
                    assert(s[j0] == r);
                    assert(s.contains(r));
                    assert(r != region);
                }
                if s.contains(r) && r != region {
                    let j0 = choose|j0: int| 0 <= j0 < s.len() && s[j0] == r;
                    assert(j0 != i);
                    let j = if j0 < i { j0 } else { j0 - 1 };
                    assert(t[j] == s[j0]);
                    assert(t.contains(r));
                }
            }
            assert forall|a: int| #[trigger]
                self.spec_is_mapped(a) == (old(self).spec_is_mapped(a) && !region.covers(
                a,
            )) by {
                if self.spec_is_mapped(a) {
                    let j = choose|j: int| 0 <= j < t.len() && (#[trigger] t[j]).covers(a);
                    let j0 = if j < i { j } else { j + 1 };
                    assert(t[j] == s[j0]);
                    assert(s[j0].covers(a));
                    assert(old(self).spec_is_mapped(a));
                    if j0 < i {
                        assert(s[j0].disjoint(s[i]));
                    } else {
                        assert(s[i].disjoint(s[j0]));
                    }
                    assert(!region.covers(a));
                }
                if old(self).spec_is_mapped(a) && !region.covers(a) {
                    let j0 = choose|j0: int| 0 <= j0 < s.len() && (#[trigger] s[j0]).covers(a);
                    assert(j0 != i);
                    let j = if j0 < i { j0 } else { j0 - 1 };
                    assert(t[j] == s[j0]);
                    assert(self.spec_is_mapped(a));
                }
            }
        }
        fa.lock();
        let freed = region.size / PAGE_SIZE;
        fa.inner.free_frames = fa.inner.free_frames + freed;
        fa.unlock();
    }
}

} // verus!
