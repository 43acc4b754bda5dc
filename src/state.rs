use crate::error::AllocError;
use vstd::arithmetic::power2::pow2;
use vstd::prelude::*;

verus! {

/// The smallest multiple of `a` that is at least `x` (for `a > 0`).
pub open spec fn align_up(x: int, a: int) -> int {
    if x % a == 0 {
        x
    } else {
        x + (a - x % a)
    }
}

/// The largest multiple of `a` that is at most `x` (for `a > 0`).
pub open spec fn align_down(x: int, a: int) -> int {
    x - x % a
}

/// An address result read as a mathematical integer.
pub open spec fn addr_result(r: Result<usize, AllocError>) -> Result<int, AllocError> {
    match r {
        Ok(p) => Ok(p as int),
        Err(e) => Err(e),
    }
}

/// The abstract state of an early allocator: the region `[start, end)`, the
/// two cursors, and the number of outstanding byte blocks.
pub struct EarlyState {
    pub start: int,
    pub end: int,
    pub byte_pos: int,
    pub page_pos: int,
    pub alloc_count: int,
}

impl EarlyState {
    /// The state of an allocator that has not been given a region yet.
    pub open spec fn empty() -> EarlyState {
        EarlyState { start: 0, end: 0, byte_pos: 0, page_pos: 0, alloc_count: 0 }
    }

    /// The state right after initialising over `[start, start + size)`.
    pub open spec fn initialized(start: int, size: int) -> EarlyState {
        EarlyState {
            start,
            end: start + size,
            byte_pos: start,
            page_pos: start + size,
            alloc_count: 0,
        }
    }

    /// Cursors in order inside the region, the region inside the address
    /// space, and each outstanding byte block holding at least one byte of the
    /// byte area (so that no blocks means an empty byte area).
    pub open spec fn inv(self) -> bool {
        &&& 0 <= self.start <= self.byte_pos <= self.page_pos <= self.end <= usize::MAX
        &&& 0 <= self.alloc_count <= self.byte_pos - self.start
        &&& (self.alloc_count == 0 ==> self.byte_pos == self.start)
    }

    pub open spec fn total_bytes(self) -> int {
        self.end - self.start
    }

    pub open spec fn used_bytes(self) -> int {
        (self.byte_pos - self.start) + (self.end - self.page_pos)
    }

    pub open spec fn available_bytes(self) -> int {
        self.page_pos - self.byte_pos
    }

    /// What a byte request of `size` bytes aligned to `align` returns.
    pub open spec fn alloc_outcome(self, size: int, align: int) -> Result<int, AllocError> {
        let aligned_pos = align_up(self.byte_pos, align);
        if size == 0 {
            Err(AllocError::InvalidParam)
        } else if aligned_pos + size > self.page_pos {
            Err(AllocError::NoMemory)
        } else if aligned_pos == 0 {
            Err(AllocError::InvalidParam)
        } else {
            Ok(aligned_pos)
        }
    }

    /// The state after a byte request; a refused request changes nothing.
    pub open spec fn after_alloc(self, size: int, align: int) -> EarlyState {
        match self.alloc_outcome(size, align) {
            Ok(p) => EarlyState { byte_pos: p + size, alloc_count: self.alloc_count + 1, ..self },
            Err(_) => self,
        }
    }

    /// The state after releasing one byte block: the count goes down (never
    /// below zero), and the whole byte area is reclaimed when it reaches zero.
    pub open spec fn after_dealloc(self) -> EarlyState {
        let count = if self.alloc_count > 0 {
            self.alloc_count - 1
        } else {
            0
        };
        EarlyState {
            alloc_count: count,
            byte_pos: if count == 0 {
                self.start
            } else {
                self.byte_pos
            },
            ..self
        }
    }

    /// The alignment of a page run: `page_size` times two to the `align_pow2`.
    pub open spec fn page_align(page_size: int, align_pow2: nat) -> int {
        page_size * pow2(align_pow2)
    }

    /// What a request for `num_pages` pages of `page_size` bytes returns.
    pub open spec fn alloc_pages_outcome(self, page_size: int, num_pages: int, align_pow2: nat) -> Result<
        int,
        AllocError,
    > {
        let aligned_pos = align_down(
            self.page_pos - num_pages * page_size,
            Self::page_align(page_size, align_pow2),
        );
        if num_pages == 0 {
            Err(AllocError::InvalidParam)
        } else if aligned_pos < self.byte_pos {
            Err(AllocError::NoMemory)
        } else {
            Ok(aligned_pos)
        }
    }

    /// The state after a page request; a refused request changes nothing.
    pub open spec fn after_alloc_pages(self, page_size: int, num_pages: int, align_pow2: nat) -> EarlyState {
        match self.alloc_pages_outcome(page_size, num_pages, align_pow2) {
            Ok(p) => EarlyState { page_pos: p, ..self },
            Err(_) => self,
        }
    }
}

} // verus!
