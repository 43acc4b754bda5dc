//! An early-boot memory allocator over one contiguous region.
//!
//! Byte blocks are handed out from the low end of the region upward and page
//! runs from the high end downward; the two fronts never cross. Byte space is
//! reclaimed in bulk once every outstanding byte block has been released, and
//! pages are never released.
mod early;
mod error;
mod laws;
mod state;

pub use early::EarlyAllocator;
pub use error::AllocError;
pub use laws::{
    dealloc_n, lemma_alloc_counts, lemma_byte_accounting, lemma_cursors_ordered, lemma_exhausted,
    lemma_pages_monotonic, lemma_round_trip, lemma_steps_keep_inv, lemma_steps_keep_region,
};
pub use state::{addr_result, align_down, align_up, EarlyState};
