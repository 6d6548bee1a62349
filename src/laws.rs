//! Properties of the kernel's layout that hold for all operand lengths.
use vstd::prelude::*;

use crate::layout::{
    spec_chunk_fill, spec_chunk_size, spec_degree, spec_effective_threshold, spec_overlap_position,
    spec_product_len, spec_uses_direct, EVAL_POINTS, MIN_THRESHOLD,
};

verus! {

/// Any requested threshold at or below five behaves as threshold five: the
/// effective threshold is the same, and so is the choice between direct
/// convolution and splitting, for operands of any lengths.
pub proof fn lemma_low_threshold_acts_as_minimum(t: int, n: int, m: int)
    requires
        1 <= t <= MIN_THRESHOLD as int,
    ensures
        spec_effective_threshold(t) == spec_effective_threshold(MIN_THRESHOLD as int),
        spec_uses_direct(n, m, t) == spec_uses_direct(n, m, MIN_THRESHOLD as int),
{
}

/// Clamping is idempotent: the recursion, which passes the effective
/// threshold down, takes the same branches as a call with the requested one.
pub proof fn lemma_clamp_idempotent(t: int, n: int, m: int)
    requires
        t >= 1,
    ensures
        spec_effective_threshold(spec_effective_threshold(t)) == spec_effective_threshold(t),
        spec_uses_direct(n, m, spec_effective_threshold(t)) == spec_uses_direct(n, m, t),
{
}

/// The raw product with an empty (zero) operand, on either side, is empty.
pub proof fn lemma_zero_operand_gives_empty(n: int)
    requires
        n >= 0,
    ensures
        spec_product_len(n, 0) == 0,
        spec_product_len(0, n) == 0,
{
}

/// The raw product's length does not depend on the order of the operands.
pub proof fn lemma_product_len_commutes(n: int, m: int)
    requires
        n >= 0,
        m >= 0,
    ensures
        spec_product_len(n, m) == spec_product_len(m, n),
{
}

/// For non-empty operands the raw product's degree is the sum of the
/// operands' degrees.
pub proof fn lemma_product_degree(n: int, m: int)
    requires
        n > 0,
        m > 0,
    ensures
        spec_degree(spec_product_len(n, m)) == spec_degree(n) + spec_degree(m),
{
}

/// Splitting shrinks: once the kernel splits an operand of length `n`, its
/// chunks are non-empty and strictly shorter than `n`, so the recursion ends.
pub proof fn lemma_split_shrinks(n: int)
    requires
        n >= MIN_THRESHOLD as int,
    ensures
        0 < spec_chunk_size(n) < n,
{
}

/// Whenever the kernel splits, no coefficient is lost: the three chunks of
/// each operand together hold all of its coefficients.
pub proof fn lemma_split_covers(n: int, m: int, t: int)
    requires
        n >= 0,
        m >= 0,
        t >= 1,
        !spec_uses_direct(n, m, t),
    ensures
        ({
            let c = spec_chunk_size(n);
            &&& spec_chunk_fill(n, c, 0) + spec_chunk_fill(n, c, 1) + spec_chunk_fill(n, c, 2) == n
            &&& spec_chunk_fill(m, c, 0) + spec_chunk_fill(m, c, 1) + spec_chunk_fill(m, c, 2) == m
        }),
{
    let c = spec_chunk_size(n);
    assert(2 * c == c + c);
}

/// Overlap-add reaches the whole result: whenever the kernel splits, every
/// position `k` of the raw product is `i + d * chunk` for some piece `d` of
/// the five and some index `i` inside a sub-product, whose length is at most
/// `2 * chunk - 1`.
pub proof fn lemma_overlap_reaches_every_position(n: int, m: int, t: int, k: int)
    requires
        n >= 0,
        m >= 0,
        t >= 1,
        !spec_uses_direct(n, m, t),
        0 <= k < spec_product_len(n, m),
    ensures
        exists|d: int, i: int|
            0 <= d < EVAL_POINTS && 0 <= i < 2 * spec_chunk_size(n) - 1
                && k == #[trigger] spec_overlap_position(i, d, spec_chunk_size(n)),
{
    let c = spec_chunk_size(n);
    let d = if k / c < 4 { k / c } else { 4 };
    let i = k - d * c;
    assert(c > 0 && 3 * c >= n);
    assert(k == c * (k / c) + k % c && 0 <= k % c < c && k / c >= 0) by (nonlinear_arith)
        requires
            c > 0,
            k >= 0,
    ;
    if k / c < 4 {
        assert(i == k % c) by (nonlinear_arith)
            requires
                i == k - d * c,
                d == k / c,
                k == c * (k / c) + k % c,
        ;
    } else {
        assert(k >= 4 * c) by (nonlinear_arith)
            requires
                k == c * (k / c) + k % c,
                k / c >= 4,
                k % c >= 0,
                c > 0,
        ;
    }
    assert(spec_overlap_position(i, d, c) == k);
}

} // verus!
