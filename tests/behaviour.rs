use bump_allocator::{AllocError, EarlyAllocator};

type Early = EarlyAllocator<4096>;

fn region(start: usize, size: usize) -> Early {
    let mut a = Early::new();
    a.init(start, size);
    a
}

fn ordered(a: &Early) -> bool {
    a.start() <= a.byte_pos() && a.byte_pos() <= a.page_pos() && a.page_pos() <= a.end()
}

#[test]
fn new_manages_nothing() {
    let a = Early::new();
    assert_eq!(a.total_bytes(), 0);
    assert_eq!(a.used_bytes(), 0);
    assert_eq!(a.available_bytes(), 0);
    assert_eq!(a.total_pages(), 0);
}

#[test]
fn cursors_stay_ordered() {
    let mut a = region(0x10000, 0x8000);
    assert!(ordered(&a));
    for i in 1..20usize {
        let _ = a.alloc_bytes(i * 37, 8);
        assert!(ordered(&a));
        let _ = a.alloc_pages(1, i % 3);
        assert!(ordered(&a));
        if i % 4 == 0 {
            a.dealloc(0, 0, 1);
            assert!(ordered(&a));
        }
    }
}

#[test]
fn byte_accounting_adds_up() {
    let mut a = region(0x10000, 0x8000);
    let total = a.total_bytes();
    assert_eq!(total, 0x8000);
    for i in 1..10usize {
        let _ = a.alloc_bytes(i * 100, 16);
        let _ = a.alloc_pages(i % 2 + 1, 0);
        assert_eq!(a.used_bytes() + a.available_bytes(), a.total_bytes());
        assert_eq!(a.total_bytes(), total);
    }
    a.dealloc(0, 0, 1);
    assert_eq!(a.total_bytes(), total);
}

#[test]
fn byte_area_returns_only_at_last_release() {
    let mut a = region(0x10000, 0x8000);
    let n = 5usize;
    for _ in 0..n {
        assert!(a.alloc_bytes(24, 8).is_ok());
    }
    let top = a.byte_pos();
    assert_eq!(top, 0x10000 + 5 * 24);
    for k in 1..n {
        a.dealloc(0x10000 + 24 * (n - k), 24, 8);
        assert_eq!(a.byte_pos(), top);
        assert_eq!(a.alloc_count(), n - k);
    }
    a.dealloc(0x10000, 24, 8);
    assert_eq!(a.byte_pos(), 0x10000);
    assert_eq!(a.alloc_count(), 0);
}

#[test]
fn extra_release_saturates() {
    let mut a = region(0x10000, 0x8000);
    a.dealloc(0x10000, 8, 8);
    assert_eq!(a.alloc_count(), 0);
    assert_eq!(a.byte_pos(), 0x10000);
}

#[test]
fn page_pos_only_goes_down() {
    let mut a = region(0x10000, 0x10000);
    let mut last = a.page_pos();
    for i in 0..6usize {
        match a.alloc_pages(1, i % 2) {
            Ok(p) => {
                assert!(p < last);
                assert_eq!(a.page_pos(), p);
            }
            Err(_) => assert_eq!(a.page_pos(), last),
        }
        assert!(a.page_pos() <= last);
        last = a.page_pos();
    }
}

#[test]
fn page_alignment_rounds_down() {
    let mut a = region(0x10000, 0x7000);
    assert_eq!(a.alloc_pages(1, 0), Ok(0x16000));
    // Two-page alignment: 0x15000 rounds down to 0x14000.
    assert_eq!(a.alloc_pages(1, 1), Ok(0x14000));
    assert_eq!(a.used_pages(), 3);
    assert_eq!(a.available_pages(), 4);
    assert_eq!(a.total_pages(), 7);
}

#[test]
fn exhausted_region_refuses_everything() {
    let mut a = region(0x10000, 0x2000);
    assert_eq!(a.alloc_bytes(0x1000, 8), Ok(0x10000));
    assert_eq!(a.alloc_pages(1, 0), Ok(0x11000));
    assert_eq!(a.available_bytes(), 0);
    let before = (a.byte_pos(), a.page_pos(), a.alloc_count());
    assert_eq!(a.alloc_bytes(1, 1), Err(AllocError::NoMemory));
    assert_eq!(a.alloc_pages(1, 0), Err(AllocError::NoMemory));
    assert_eq!((a.byte_pos(), a.page_pos(), a.alloc_count()), before);
}

#[test]
fn byte_request_too_large_is_no_memory() {
    let mut a = region(0x10000, 0x1000);
    assert_eq!(a.alloc_bytes(0x1001, 1), Err(AllocError::NoMemory));
    assert_eq!(a.alloc_bytes(0x1000, 1), Ok(0x10000));
    assert_eq!(a.available_bytes(), 0);
}

#[test]
fn padding_counts_against_the_gap() {
    let mut a = region(0x10001, 0x10);
    // Aligned start 0x10008 plus 10 bytes passes the end at 0x10011.
    assert_eq!(a.alloc_bytes(10, 8), Err(AllocError::NoMemory));
    assert_eq!(a.alloc_bytes(10, 1), Ok(0x10001));
}

#[test]
fn zero_pages_is_invalid() {
    let mut a = region(0x10000, 0x4000);
    assert_eq!(a.alloc_pages(0, 0), Err(AllocError::InvalidParam));
    assert_eq!(a.page_pos(), 0x14000);
}

#[test]
fn page_request_larger_than_region_is_no_memory() {
    let mut a = region(0x10000, 0x4000);
    assert_eq!(a.alloc_pages(0x100, 0), Err(AllocError::NoMemory));
    assert_eq!(a.alloc_pages(usize::MAX, 0), Err(AllocError::NoMemory));
    assert_eq!(a.page_pos(), 0x14000);
}

#[test]
fn block_at_address_zero_is_invalid() {
    let mut a = region(0, 0x1000);
    assert_eq!(a.alloc_bytes(8, 8), Err(AllocError::InvalidParam));
    assert_eq!(a.byte_pos(), 0);
    assert_eq!(a.alloc_count(), 0);
}

#[test]
fn init_again_discards_everything() {
    let mut a = region(0x10000, 0x4000);
    assert!(a.alloc_bytes(8, 8).is_ok());
    assert!(a.alloc_pages(1, 0).is_ok());
    a.init(0x20000, 0x2000);
    assert_eq!(a.byte_pos(), 0x20000);
    assert_eq!(a.page_pos(), 0x22000);
    assert_eq!(a.alloc_count(), 0);
    assert_eq!(a.used_bytes(), 0);
}

#[test]
fn dealloc_pages_changes_nothing() {
    let mut a = region(0x10000, 0x4000);
    assert_eq!(a.alloc_pages(2, 0), Ok(0x12000));
    a.dealloc_pages(0x12000, 2);
    assert_eq!(a.page_pos(), 0x12000);
    assert_eq!(a.used_pages(), 2);
}

#[test]
fn region_reaching_the_top_of_memory() {
    let start = usize::MAX - 0x4000;
    let mut a = region(start, 0x4000);
    assert_eq!(a.end(), usize::MAX);
    assert_eq!(a.alloc_bytes(16, 16), Ok(usize::MAX - 0x3fff));
    assert_eq!(a.alloc_bytes(usize::MAX, 1), Err(AllocError::NoMemory));
    assert_eq!(a.alloc_bytes(8, 1 << 40), Err(AllocError::NoMemory));
}
