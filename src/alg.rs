//! Choice of multiplication algorithm.
use vstd::prelude::*;

verus! {

/// Selects one of the three multiplication algorithms: direct convolution,
/// the fixed three-way split, or the three-way split with a requested
/// threshold below which the recursion convolves directly.
#[derive(Debug, Clone, Copy, PartialEq, Eq, Structural)]
pub enum PolynomialMultAlg {
    Naive,
    CookTooms,
    Thresholded(usize),
}

} // verus!
