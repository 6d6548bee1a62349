//! Index arithmetic of the thresholded three-way multiplication kernel.
//!
//! The kernel splits each operand into three zero-padded chunks, multiplies
//! five evaluated chunk pairs recursively, and adds the five interpolated
//! pieces back at offsets that are multiples of the chunk size. Every length,
//! offset and branch decision of that scheme is computed here, on lengths
//! alone; the arithmetic on coefficients is done by the caller.
use vstd::prelude::*;

verus! {

/// Smallest operand length at which the kernel splits instead of convolving directly.
pub const MIN_THRESHOLD: usize = 5;

/// Number of chunks each operand is split into.
pub const SPLIT_PARTS: usize = 3;

/// Number of evaluation points, and of interpolated pieces recombined.
pub const EVAL_POINTS: usize = 5;

/// The threshold the kernel actually works with: the requested one, raised to at least five.
pub open spec fn spec_effective_threshold(t: int) -> int {
    if t < MIN_THRESHOLD as int { MIN_THRESHOLD as int } else { t }
}

/// The kernel convolves directly when either operand is shorter than the
/// effective threshold, or when the second operand does not fit in the three
/// chunks that the first operand's length sets (splitting would lose its tail).
pub open spec fn spec_uses_direct(n: int, m: int, t: int) -> bool {
    ||| n < spec_effective_threshold(t)
    ||| m < spec_effective_threshold(t)
    ||| m > 3 * spec_chunk_size(n)
}

/// Chunk size of a split: the length of the first operand divided by three, rounded up.
pub open spec fn spec_chunk_size(n: int) -> int {
    (n + 2) / 3
}

/// How many coefficients of a sequence of length `len` land in chunk `part`
/// (0 low, 1 mid, 2 high) when chunks hold `chunk` coefficients each;
/// the rest of the chunk is zero padding.
pub open spec fn spec_chunk_fill(len: int, chunk: int, part: int) -> int {
    let rest = len - part * chunk;
    if rest <= 0 { 0 } else if rest < chunk { rest } else { chunk }
}

/// Length of the raw product of sequences of lengths `n` and `m`:
/// empty when either is empty, otherwise `n + m - 1`.
pub open spec fn spec_product_len(n: int, m: int) -> int {
    if n == 0 || m == 0 { 0 } else { n + m - 1 }
}

/// Position in the result at which coefficient `i` of interpolated piece `d` is added.
pub open spec fn spec_overlap_position(i: int, d: int, chunk: int) -> int {
    i + d * chunk
}

/// Degree of a polynomial whose trimmed coefficient sequence has length `len`;
/// the zero polynomial reports degree zero.
pub open spec fn spec_degree(len: int) -> int {
    if len == 0 { 0 } else { len - 1 }
}

/// `r` is the length left after stripping every trailing negligible coefficient.
pub open spec fn is_trimmed_len(negligible: Seq<bool>, r: int) -> bool {
    &&& 0 <= r <= negligible.len()
    &&& forall|k: int| r <= k < negligible.len() ==> #[trigger] negligible[k]
    &&& (r == 0 || !negligible[r - 1])
}

/// Clamps a requested threshold to the kernel's minimum of five. A threshold
/// of zero is a caller error.
pub fn effective_threshold(t: usize) -> (r: usize)
    requires
        t >= 1,
    ensures
        r == spec_effective_threshold(t as int),
{
    if t < MIN_THRESHOLD {
        MIN_THRESHOLD
    } else {
        t
    }
}

/// Whether the kernel, asked for threshold `t`, multiplies operands of
/// lengths `n` and `m` by direct convolution rather than by splitting.
pub fn uses_direct(n: usize, m: usize, t: usize) -> (r: bool)
    requires
        t >= 1,
    ensures
        r == spec_uses_direct(n as int, m as int, t as int),
{
    let thr = effective_threshold(t);
    // `m > 3 * c` compared as `ceil(m / 3) > c`, which cannot overflow.
    let c = chunk_size(n);
    let cm = chunk_size(m);
    assert(cm > c <==> m > 3 * c);
    n < thr || m < thr || cm > c
}

/// Chunk size used to split both operands, driven by the first operand's length `n`.
pub fn chunk_size(n: usize) -> (r: usize)
    ensures
        r == spec_chunk_size(n as int),
        3 * r >= n,
        r == 0 || 3 * (r - 1) < n,
{
    let q = n / SPLIT_PARTS;
    if n % SPLIT_PARTS == 0 {
        q
    } else {
        q + 1
    }
}

/// Number of source coefficients copied into chunk `part` of a sequence of length `len`.
pub fn chunk_fill(len: usize, chunk: usize, part: usize) -> (r: usize)
    requires
        part < SPLIT_PARTS,
    ensures
        r == spec_chunk_fill(len as int, chunk as int, part as int),
        r <= chunk,
{
    let mut rest = len;
    let mut k: usize = 0;
    while k < part
        invariant
            k <= part,
            rest as int == (if len as int - k * chunk <= 0 { 0 } else { len as int - k * chunk }),
        decreases part - k,
    {
        proof {
            assert((k + 1) * chunk == k * chunk + chunk) by (nonlinear_arith);
        }
        rest = rest.saturating_sub(chunk);
        k = k + 1;
    }
    if rest < chunk {
        rest
    } else {
        chunk
    }
}

/// Length of the raw product of coefficient sequences of lengths `n` and `m`.
pub fn product_len(n: usize, m: usize) -> (r: usize)
    requires
        n + m <= usize::MAX,
    ensures
        r == spec_product_len(n as int, m as int),
{
    if n == 0 || m == 0 {
        0
    } else {
        n + m - 1
    }
}

/// Where coefficient `i` of interpolated piece `d` lands in a result of
/// length `result_len`: at `i + d * chunk`, or nowhere when that position
/// lies at or past the end (such positions are dropped).
pub fn overlap_target(i: usize, d: usize, chunk: usize, result_len: usize) -> (r: Option<usize>)
    requires
        d < EVAL_POINTS,
    ensures
        spec_overlap_position(i as int, d as int, chunk as int) < result_len
            ==> r == Some(spec_overlap_position(i as int, d as int, chunk as int) as usize),
        spec_overlap_position(i as int, d as int, chunk as int) >= result_len ==> r is None,
{
    proof {
        assert(d * chunk == chunk * d) by (nonlinear_arith);
    }
    match chunk.checked_mul(d) {
        None => None,
        Some(offset) => {
            match i.checked_add(offset) {
                None => None,
                Some(pos) => {
                    if pos < result_len {
                        Some(pos)
                    } else {
                        None
                    }
                },
            }
        },
    }
}

/// Length kept when trailing negligible coefficients are stripped from a
/// sequence whose entries are flagged by `negligible`.
pub fn trimmed_len(negligible: &[bool]) -> (r: usize)
    ensures
        is_trimmed_len(negligible@, r as int),
{
    let mut r = negligible.len();
    while r > 0 && negligible[r - 1]
        invariant
            r <= negligible@.len(),
            forall|k: int| r <= k < negligible@.len() ==> #[trigger] negligible@[k],
        decreases r,
    {
        r = r - 1;
    }
    r
}

/// Degree of a polynomial whose trimmed coefficient sequence has length `len`.
pub fn degree_of_len(len: usize) -> (r: usize)
    ensures
        r == spec_degree(len as int),
{
    if len == 0 {
        0
    } else {
        len - 1
    }
}

} // verus!
