use crate::error::AllocError;
use crate::state::{align_down, align_up, EarlyState};
use vstd::arithmetic::div_mod::lemma_mod_bound;
use vstd::arithmetic::power2::{lemma_pow2_pos, pow2};
use vstd::prelude::*;

verus! {

/// The state after `n` byte blocks have been released one after another.
pub open spec fn dealloc_n(s: EarlyState, n: nat) -> EarlyState
    decreases n,
{
    if n == 0 {
        s
    } else {
        dealloc_n(s.after_dealloc(), (n - 1) as nat)
    }
}

proof fn lemma_align_up_bounds(x: int, a: int)
    requires
        a > 0,
    ensures
        x <= align_up(x, a) < x + a,
{
    lemma_mod_bound(x, a);
}

proof fn lemma_align_down_bounds(x: int, a: int)
    requires
        a > 0,
    ensures
        x - a < align_down(x, a) <= x,
{
    lemma_mod_bound(x, a);
}

proof fn lemma_page_align_pos(page_size: int, align_pow2: nat)
    requires
        page_size > 0,
    ensures
        EarlyState::page_align(page_size, align_pow2) > 0,
{
    lemma_pow2_pos(align_pow2);
    assert(page_size * pow2(align_pow2) > 0) by (nonlinear_arith)
        requires
            page_size > 0,
            pow2(align_pow2) > 0,
    ;
}

/// In every well-formed state the cursors are ordered:
/// `start <= byte_pos <= page_pos <= end`.
pub proof fn lemma_cursors_ordered(s: EarlyState)
    requires
        s.inv(),
    ensures
        s.start <= s.byte_pos <= s.page_pos <= s.end,
{
}

/// Every operation leads from a well-formed state to a well-formed one, and a
/// fresh or freshly initialised allocator is well-formed; so the invariant
/// holds of every reachable state.
pub proof fn lemma_steps_keep_inv(
    s: EarlyState,
    size: int,
    align: int,
    page_size: int,
    num_pages: int,
    align_pow2: nat,
    start: int,
    region_size: int,
)
    requires
        s.inv(),
        size >= 0,
        align > 0,
        page_size > 0,
        num_pages >= 0,
        0 <= start,
        0 <= region_size,
        start + region_size <= usize::MAX,
    ensures
        EarlyState::empty().inv(),
        EarlyState::initialized(start, region_size).inv(),
        s.after_alloc(size, align).inv(),
        s.after_dealloc().inv(),
        s.after_alloc_pages(page_size, num_pages, align_pow2).inv(),
{
    lemma_align_up_bounds(s.byte_pos, align);
    lemma_page_align_pos(page_size, align_pow2);
    let x = s.page_pos - num_pages * page_size;
    lemma_align_down_bounds(x, EarlyState::page_align(page_size, align_pow2));
    assert(num_pages * page_size >= 0) by (nonlinear_arith)
        requires
            num_pages >= 0,
            page_size > 0,
    ;
}

/// Used and available bytes always add up to the total, which is the size
/// of the region.
pub proof fn lemma_byte_accounting(s: EarlyState)
    requires
        s.inv(),
    ensures
        s.used_bytes() + s.available_bytes() == s.total_bytes(),
        s.total_bytes() == s.end - s.start,
{
}

/// No operation but `init` moves the region: the total stays as it was.
pub proof fn lemma_steps_keep_region(
    s: EarlyState,
    size: int,
    align: int,
    page_size: int,
    num_pages: int,
    align_pow2: nat,
)
    ensures
        s.after_alloc(size, align).start == s.start,
        s.after_alloc(size, align).end == s.end,
        s.after_dealloc().start == s.start,
        s.after_dealloc().end == s.end,
        s.after_alloc_pages(page_size, num_pages, align_pow2).start == s.start,
        s.after_alloc_pages(page_size, num_pages, align_pow2).end == s.end,
        s.after_alloc(size, align).total_bytes() == s.total_bytes(),
        s.after_dealloc().total_bytes() == s.total_bytes(),
        s.after_alloc_pages(page_size, num_pages, align_pow2).total_bytes() == s.total_bytes(),
{
}

/// A successful byte request adds one to the count of outstanding blocks.
pub proof fn lemma_alloc_counts(s: EarlyState, size: int, align: int)
    requires
        s.alloc_outcome(size, align) is Ok,
    ensures
        s.after_alloc(size, align).alloc_count == s.alloc_count + 1,
{
}

/// With `n` byte blocks outstanding, releasing them in any order leaves the
/// byte area where it is after each of the first `n - 1` releases, and
/// brings `byte_pos` back to `start` exactly at the `n`-th.
pub proof fn lemma_round_trip(s: EarlyState, k: nat)
    requires
        s.inv(),
        k <= s.alloc_count,
    ensures
        dealloc_n(s, k).alloc_count == s.alloc_count - k,
        dealloc_n(s, k).inv(),
        k == s.alloc_count ==> dealloc_n(s, k).byte_pos == s.start,
        k < s.alloc_count ==> dealloc_n(s, k).byte_pos == s.byte_pos,
        k < s.alloc_count ==> dealloc_n(s, k).byte_pos > s.start,
    decreases k,
{
    if k > 0 {
        lemma_round_trip(s.after_dealloc(), (k - 1) as nat);
    }
}

/// A page request never moves `page_pos` up, and a successful one moves it
/// strictly down; byte requests and releases leave it alone.
pub proof fn lemma_pages_monotonic(
    s: EarlyState,
    page_size: int,
    num_pages: int,
    align_pow2: nat,
    size: int,
    align: int,
)
    requires
        s.inv(),
        page_size > 0,
        num_pages >= 0,
    ensures
        s.after_alloc_pages(page_size, num_pages, align_pow2).page_pos <= s.page_pos,
        s.alloc_pages_outcome(page_size, num_pages, align_pow2) is Ok ==> s.after_alloc_pages(
            page_size,
            num_pages,
            align_pow2,
        ).page_pos < s.page_pos,
        s.after_alloc(size, align).page_pos == s.page_pos,
        s.after_dealloc().page_pos == s.page_pos,
{
    lemma_page_align_pos(page_size, align_pow2);
    let x = s.page_pos - num_pages * page_size;
    lemma_align_down_bounds(x, EarlyState::page_align(page_size, align_pow2));
    if num_pages > 0 {
        assert(num_pages * page_size >= 1) by (nonlinear_arith)
            requires
                num_pages > 0,
                page_size > 0,
        ;
    }
}

/// Once the gap is closed, every byte or page request of a non-zero size is
/// refused with `NoMemory` and leaves the state as it was.
pub proof fn lemma_exhausted(
    s: EarlyState,
    size: int,
    align: int,
    page_size: int,
    num_pages: int,
    align_pow2: nat,
)
    requires
        s.inv(),
        s.byte_pos == s.page_pos,
        size > 0,
        align > 0,
        page_size > 0,
        num_pages > 0,
    ensures
        s.alloc_outcome(size, align) == Err::<int, AllocError>(AllocError::NoMemory),
        s.after_alloc(size, align) == s,
        s.alloc_pages_outcome(page_size, num_pages, align_pow2) == Err::<int, AllocError>(
            AllocError::NoMemory,
        ),
        s.after_alloc_pages(page_size, num_pages, align_pow2) == s,
{
    lemma_align_up_bounds(s.byte_pos, align);
    lemma_pages_monotonic(s, page_size, num_pages, align_pow2, size, align);
}

} // verus!
