//! Why running sums of `i64` values fit in an `i128`.
use vstd::prelude::*;

verus! {

/// `n` values of an `i64`, for any `n` that a `usize` counts, sum to less
/// than `i128::MAX` in magnitude: each is at most 2^63 in magnitude.
pub proof fn lemma_sum_fits_i128(n: int)
    requires
        0 <= n <= 0xffff_ffff_ffff_ffff,
    ensures
        n * 0x8000_0000_0000_0000 <= 0xffff_ffff_ffff_ffff * 0x8000_0000_0000_0000,
        0xffff_ffff_ffff_ffff * 0x8000_0000_0000_0000 < i128::MAX,
{
    assert(n * 0x8000_0000_0000_0000 <= 0xffff_ffff_ffff_ffff * 0x8000_0000_0000_0000)
        by (nonlinear_arith)
        requires
            0 <= n <= 0xffff_ffff_ffff_ffff,
    ;
}

} // verus!
