use vstd::prelude::*;

verus! {

/// Why an allocation request was refused.
#[derive(Debug, Clone, Copy, PartialEq, Eq, Structural)]
pub enum AllocError {
    /// A zero-sized request, or a computed address of zero.
    InvalidParam,
    /// The byte area and the page area would overlap, or the region cannot grow.
    NoMemory,
}

} // verus!
