use crate::error::AllocError;
use crate::state::{addr_result, align_down, align_up, EarlyState};
use vstd::arithmetic::div_mod::{lemma_mod_bound, lemma_mod_decreases};
use vstd::arithmetic::power2::{lemma_pow2_pos, pow2};
use vstd::bits::lemma_usize_shl_is_mul;
use vstd::prelude::*;

verus! {

/// Early memory allocator, for use before the kernel's byte and page
/// allocators are up. It manages one region as a double-ended range:
///
/// ```text
/// [ bytes-used | avail-area | pages-used ]
/// |            | -->    <-- |            |
/// start       b_pos        p_pos       end
/// ```
///
/// Byte blocks are bumped forward from `start`, page runs backward from
/// `end`. The byte area is freed as a whole once the count of outstanding
/// byte blocks comes down to zero; pages are never freed.
pub struct EarlyAllocator<const PAGE_SIZE: usize> {
    start: usize,
    end: usize,
    byte_pos: usize,
    page_pos: usize,
    alloc_count: usize,
}

impl<const PAGE_SIZE: usize> View for EarlyAllocator<PAGE_SIZE> {
    type V = EarlyState;

    closed spec fn view(&self) -> EarlyState {
        EarlyState {
            start: self.start as int,
            end: self.end as int,
            byte_pos: self.byte_pos as int,
            page_pos: self.page_pos as int,
            alloc_count: self.alloc_count as int,
        }
    }
}

impl<const PAGE_SIZE: usize> EarlyAllocator<PAGE_SIZE> {
    /// Well-formedness: the abstract state meets its invariant.
    pub open spec fn wf(&self) -> bool {
        self@.inv()
    }

    /// Creates an allocator that manages no memory yet.
    pub fn new() -> (r: Self)
        ensures
            r.wf(),
            r@ == EarlyState::empty(),
    {
        Self { start: 0, end: 0, byte_pos: 0, page_pos: 0, alloc_count: 0 }
    }

    /// (Re)initialises the allocator over `[start, start + size)`, discarding
    /// whatever was handed out before.
    pub fn init(&mut self, start: usize, size: usize)
        requires
            start + size <= usize::MAX,
        ensures
            final(self).wf(),
            final(self)@ == EarlyState::initialized(start as int, size as int),
    {
        self.start = start;
        self.end = start + size;
        self.byte_pos = start;
        self.page_pos = self.end;
        self.alloc_count = 0;
    }

    /// Adding memory is not supported: the region is fixed once initialised.
    pub fn add_memory(&mut self, _start: usize, _size: usize) -> (r: Result<(), AllocError>)
        ensures
            r == Err::<(), AllocError>(AllocError::NoMemory),
            final(self)@ == old(self)@,
    {
        Err(AllocError::NoMemory)
    }

    /// Allocates `size` bytes aligned to `align` from the byte area.
    pub fn alloc_bytes(&mut self, size: usize, align: usize) -> (r: Result<usize, AllocError>)
        requires
            old(self).wf(),
            align > 0,
        ensures
            final(self).wf(),
            addr_result(r) == old(self)@.alloc_outcome(size as int, align as int),
            final(self)@ == old(self)@.after_alloc(size as int, align as int),
    {
        if size == 0 {
            return Err(AllocError::InvalidParam);
        }
        let rem = self.byte_pos % align;
        let pad: usize = if rem == 0 {
            0
        } else {
            align - rem
        };
        proof {
            lemma_mod_bound(self.byte_pos as int, align as int);
            assert(align_up(self.byte_pos as int, align as int) == self.byte_pos + pad);
        }
        if pad > self.page_pos - self.byte_pos {
            return Err(AllocError::NoMemory);
        }
        let aligned_pos = self.byte_pos + pad;
        if size > self.page_pos - aligned_pos {
            return Err(AllocError::NoMemory);
        }
        if aligned_pos == 0 {
            return Err(AllocError::InvalidParam);
        }
        self.byte_pos = aligned_pos + size;
        self.alloc_count = self.alloc_count + 1;
        Ok(aligned_pos)
    }

    /// Releases one byte block. Only the count of outstanding blocks is
    /// kept, so the address and layout are not used; when the count reaches
    /// zero the whole byte area is reclaimed.
    pub fn dealloc(&mut self, _pos: usize, _size: usize, _align: usize)
        requires
            old(self).wf(),
        ensures
            final(self).wf(),
            final(self)@ == old(self)@.after_dealloc(),
    {
        if self.alloc_count > 0 {
            self.alloc_count = self.alloc_count - 1;
        }
        if self.alloc_count == 0 {
            self.byte_pos = self.start;
        }
    }

    /// Size of the whole region, in bytes.
    pub fn total_bytes(&self) -> (r: usize)
        requires
            self.wf(),
        ensures
            r == self@.total_bytes(),
    {
        self.end - self.start
    }

    /// Bytes taken by the byte area and the page area together.
    pub fn used_bytes(&self) -> (r: usize)
        requires
            self.wf(),
        ensures
            r == self@.used_bytes(),
    {
        let bytes_used = self.byte_pos - self.start;
        let pages_used = self.end - self.page_pos;
        bytes_used + pages_used
    }

    /// Bytes in the gap between the byte area and the page area.
    pub fn available_bytes(&self) -> (r: usize)
        requires
            self.wf(),
        ensures
            r == self@.available_bytes(),
    {
        self.page_pos - self.byte_pos
    }

    /// Allocates `num_pages` contiguous pages from the page area, aligned to
    /// `PAGE_SIZE << align_pow2`.
    pub fn alloc_pages(&mut self, num_pages: usize, align_pow2: usize) -> (r: Result<
        usize,
        AllocError,
    >)
        requires
            old(self).wf(),
            PAGE_SIZE > 0,
            align_pow2 < usize::BITS,
            EarlyState::page_align(PAGE_SIZE as int, align_pow2 as nat) <= usize::MAX,
        ensures
            final(self).wf(),
            addr_result(r) == old(self)@.alloc_pages_outcome(
                PAGE_SIZE as int,
                num_pages as int,
                align_pow2 as nat,
            ),
            final(self)@ == old(self)@.after_alloc_pages(
                PAGE_SIZE as int,
                num_pages as int,
                align_pow2 as nat,
            ),
    {
        if num_pages == 0 {
            return Err(AllocError::InvalidParam);
        }
        let page_size = PAGE_SIZE;
        let ghost align_spec = EarlyState::page_align(page_size as int, align_pow2 as nat);
        proof {
            lemma_pow2_pos(align_pow2 as nat);
            assert(align_spec > 0) by (nonlinear_arith)
                requires
                    align_spec == page_size * pow2(align_pow2 as nat),
                    page_size > 0,
                    pow2(align_pow2 as nat) > 0,
            ;
        }
        let bytes_size = match num_pages.checked_mul(page_size) {
            Some(b) => b,
            None => {
                proof {
                    let x = self.page_pos - num_pages * page_size;
                    lemma_mod_bound(x, align_spec);
                }
                return Err(AllocError::NoMemory);
            },
        };
        if bytes_size > self.page_pos {
            proof {
                let x = self.page_pos - num_pages * page_size;
                lemma_mod_bound(x, align_spec);
            }
            return Err(AllocError::NoMemory);
        }
        proof {
            lemma_usize_shl_is_mul(page_size, align_pow2);
        }
        let align = page_size << align_pow2;
        let candidate = self.page_pos - bytes_size;
        proof {
            assert(align as int == align_spec);
            lemma_mod_bound(candidate as int, align as int);
            lemma_mod_decreases(candidate as nat, align as nat);
        }
        let aligned_pos = candidate - candidate % align;
        proof {
            assert(aligned_pos == align_down(candidate as int, align_spec));
            assert(bytes_size >= 1) by (nonlinear_arith)
                requires
                    bytes_size == num_pages * page_size,
                    num_pages > 0,
                    page_size > 0,
            ;
        }
        if aligned_pos < self.byte_pos {
            return Err(AllocError::NoMemory);
        }
        self.page_pos = aligned_pos;
        Ok(aligned_pos)
    }

    /// Releasing pages is not supported: pages handed out stay in use for
    /// the lifetime of whatever took them.
    pub fn dealloc_pages(&mut self, _pos: usize, _num_pages: usize)
        ensures
            final(self)@ == old(self)@,
    {
    }

    /// Size of the whole region, in pages.
    pub fn total_pages(&self) -> (r: usize)
        requires
            self.wf(),
            PAGE_SIZE > 0,
        ensures
            r == self@.total_bytes() / PAGE_SIZE as int,
    {
        self.total_bytes() / PAGE_SIZE
    }

    /// Pages taken by the page area.
    pub fn used_pages(&self) -> (r: usize)
        requires
            self.wf(),
            PAGE_SIZE > 0,
        ensures
            r == (self@.end - self@.page_pos) / PAGE_SIZE as int,
    {
        (self.end - self.page_pos) / PAGE_SIZE
    }

    /// Whole pages in the gap between the byte area and the page area.
    pub fn available_pages(&self) -> (r: usize)
        requires
            self.wf(),
            PAGE_SIZE > 0,
        ensures
            r == self@.available_bytes() / PAGE_SIZE as int,
    {
        (self.page_pos - self.byte_pos) / PAGE_SIZE
    }

    /// Lower bound of the region.
    pub fn start(&self) -> (r: usize)
        ensures
            r == self@.start,
    {
        self.start
    }

    /// Upper bound (exclusive) of the region.
    pub fn end(&self) -> (r: usize)
        ensures
            r == self@.end,
    {
        self.end
    }

    /// Boundary of the byte area: the next free byte position.
    pub fn byte_pos(&self) -> (r: usize)
        ensures
            r == self@.byte_pos,
    {
        self.byte_pos
    }

    /// Boundary of the page area: the lowest page handed out so far.
    pub fn page_pos(&self) -> (r: usize)
        ensures
            r == self@.page_pos,
    {
        self.page_pos
    }

    /// Number of byte blocks handed out and not yet released.
    pub fn alloc_count(&self) -> (r: usize)
        ensures
            r == self@.alloc_count,
    {
        self.alloc_count
    }
}

} // verus!
