//! Construction of the initial execution stack.
//!
//! The raw material handed over by the address-space initializer is a guard
//! page plus a list of candidate mapped ranges. A stack exists exactly when
//! those ranges form one contiguous virtual range that begins immediately
//! after the guard page; any gap, overlap, or out-of-order input is rejected
//! and the material is handed back untouched.

use vstd::prelude::*;
use crate::config::PAGE_SIZE;
use crate::region::{GuardPage, MappedRegion};

verus! {

/// Whether the regions of `s` form one contiguous range starting at `start`:
/// at least one region, the first beginning at `start`, and each following
/// region beginning exactly where the previous one ends.
pub open spec fn contiguous_after(start: int, s: Seq<MappedRegion>) -> bool {
    &&& s.len() > 0
    &&& s[0].start as int == start
    &&& forall|i: int| 1 <= i < s.len() ==> (#[trigger] s[i]).start as int == s[i - 1].end()
}

/// The initial execution stack: a guard page directly below one contiguous
/// mapped region. The CPU's stack pointer starts at the region's top.
#[derive(Clone, Copy, PartialEq, Eq, Structural, Debug)]
pub struct Stack {
    pub guard: GuardPage,
    pub pages: MappedRegion,
}

impl Stack {
    /// The backing region sits immediately above the guard page.
    pub open spec fn wf(self) -> bool {
        &&& self.guard.wf()
        &&& self.pages.wf()
        &&& self.pages.start as int == self.guard.end()
    }

    /// Address one past the highest usable stack byte.
    pub open spec fn spec_top(self) -> int {
        self.pages.end()
    }

    /// Address one past the highest usable stack byte.
    pub fn top(&self) -> (r: u64)
        requires
            self.wf(),
        ensures
            r as int == self.spec_top(),
    {
        self.pages.end_addr()
    }

    /// Build the stack from the guard page and the candidate ranges.
    ///
    /// Succeeds if and only if the candidates form a single contiguous
    /// virtual range immediately adjoining the guard page; otherwise the
    /// untouched material is returned so the caller can dispose of it.
    #[verifier::rlimit(100)]
    pub fn from_pages(guard: GuardPage, pages: Vec<MappedRegion>) -> (r: Result<
        Stack,
        (GuardPage, Vec<MappedRegion>),
    >)
        requires
            guard.wf(),
            forall|i: int| 0 <= i < pages@.len() ==> (#[trigger] pages@[i]).wf(),
        ensures
            r is Ok <==> contiguous_after(guard.end(), pages@),
            r is Ok ==> {
                &&& r->Ok_0.wf()
                &&& r->Ok_0.guard == guard
                &&& r->Ok_0.pages.start as int == guard.end()
                &&& r->Ok_0.pages.flags == pages@[0].flags
                &&& r->Ok_0.spec_top() == pages@.last().end()
            },
            r is Err ==> {
                &&& r->Err_0.0 == guard
                &&& r->Err_0.1@ == pages@
            },
    {
        let bottom = guard.end_addr();
        if pages.len() == 0 {
            return Err((guard, pages));
        }
        let first = pages[0];
        if first.start != bottom {
            return Err((guard, pages));
        }
        let flags = first.flags;
        let mut end: u64 = first.start + first.size;
        let n = pages.len();
        let mut i: usize = 1;
        while i < n
            invariant
                1 <= i <= n,
                n == pages@.len(),
                guard.wf(),
                forall|k: int| 0 <= k < pages@.len() ==> (#[trigger] pages@[k]).wf(),
                pages@[0].start as int == guard.end(),
                forall|k: int| 1 <= k < i ==> (#[trigger] pages@[k]).start as int == pages@[k
                    - 1].end(),
                end as int == pages@[i - 1].end(),
                guard.end() < end as int,
            decreases n - i,
        {
            let e = pages[i];
            if e.start != end {
                return Err((guard, pages));
            }
            end = e.start + e.size;
            i += 1;
        }
        let size = end - bottom;
        proof {
            let last = pages@.last();
            assert(last.wf());
            assert(bottom as int % PAGE_SIZE as int == 0) by (nonlinear_arith)
                requires
                    bottom as int == guard.start as int + PAGE_SIZE as int,
                    guard.start as int % PAGE_SIZE as int == 0,
                    PAGE_SIZE == 4096,
            ;
            assert(size as int % PAGE_SIZE as int == 0) by (nonlinear_arith)
                requires
                    size as int == last.start as int + last.size as int - bottom as int,
                    last.start as int % PAGE_SIZE as int == 0,
                    last.size as int % PAGE_SIZE as int == 0,
                    bottom as int % PAGE_SIZE as int == 0,
                    PAGE_SIZE == 4096,
            ;
        }
        let merged = MappedRegion { start: bottom, size, flags };
        Ok(Stack { guard, pages: merged })
    }
}

} // verus!
