use memory_initialization::region::{GuardPage, MappedRegion, MappingFlags};
use memory_initialization::stack::Stack;

fn page(start: u64, pages: u64) -> MappedRegion {
    MappedRegion {
        start,
        size: pages * 4096,
        flags: MappingFlags { writable: true, executable: false },
    }
}

#[test]
fn contiguous_pages_adjoining_guard_build_a_stack() {
    let guard = GuardPage { start: 0x8000 };
    let stack = Stack::from_pages(guard, vec![page(0x9000, 1), page(0xa000, 2), page(0xc000, 1)])
        .expect("contiguous pages adjoining the guard must build a stack");
    assert_eq!(stack.guard.start, 0x8000);
    assert_eq!(stack.pages.start, 0x9000);
    assert_eq!(stack.pages.size, 4 * 4096);
    assert_eq!(stack.top(), 0xd000);
}

#[test]
fn single_page_stack() {
    let guard = GuardPage { start: 0x8000 };
    let stack = Stack::from_pages(guard, vec![page(0x9000, 1)]).expect("one adjoining page");
    assert_eq!(stack.top(), 0xa000);
}

#[test]
fn empty_material_is_rejected() {
    let guard = GuardPage { start: 0x8000 };
    let err = Stack::from_pages(guard, Vec::new());
    let (g, pages) = err.expect_err("no pages cannot form a stack");
    assert_eq!(g.start, 0x8000);
    assert!(pages.is_empty());
}

#[test]
fn gap_after_guard_is_rejected() {
    let guard = GuardPage { start: 0x8000 };
    // first page does not adjoin the guard page
    let err = Stack::from_pages(guard, vec![page(0xa000, 1)]);
    let (_, pages) = err.expect_err("a mapped gap above the guard must be rejected");
    assert_eq!(pages, vec![page(0xa000, 1)]);
}

#[test]
fn gap_between_pages_is_rejected() {
    let guard = GuardPage { start: 0x8000 };
    let err = Stack::from_pages(guard, vec![page(0x9000, 1), page(0xb000, 1)]);
    assert!(err.is_err());
}

#[test]
fn out_of_order_pages_are_rejected() {
    let guard = GuardPage { start: 0x8000 };
    // the two ranges would be contiguous in the other order
    let err = Stack::from_pages(guard, vec![page(0xa000, 1), page(0x9000, 1)]);
    let (g, pages) = err.expect_err("out-of-order input must be rejected");
    assert_eq!(g.start, 0x8000);
    assert_eq!(pages.len(), 2);
}

#[test]
fn overlapping_pages_are_rejected() {
    let guard = GuardPage { start: 0x8000 };
    let err = Stack::from_pages(guard, vec![page(0x9000, 2), page(0x9000, 1)]);
    assert!(err.is_err());
}
