//! The errors a suite can surface; the arithmetic pipeline itself never fails.
use vstd::prelude::*;

verus! {

/// What the facade can reject: an oversized or empty domain separation tag,
/// or an expansion request beyond the draft's bounds.
#[derive(Clone, Copy, Debug, PartialEq, Eq, Structural)]
pub enum HashingError {
    InvalidDst,
    InvalidExpansionLength,
}

} // verus!
