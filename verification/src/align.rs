//! Rounding sizes up to a power-of-two alignment.

use vstd::prelude::*;
use vstd::arithmetic::div_mod::{
    lemma_div_is_ordered, lemma_div_multiples_vanish, lemma_fundamental_div_mod,
    lemma_mod_multiples_basic,
};
use vstd::arithmetic::power2::{
    lemma2_to64, lemma2_to64_rest, lemma_pow2_adds, lemma_pow2_pos, lemma_pow2_strictly_increases,
    lemma_pow2_unfold, pow2,
};
use vstd::bits::lemma_u64_low_bits_mask_is_mod;

verus! {

/// `alignment` is one of 2^0, 2^1, ..., 2^63.
pub open spec fn is_power_of_two(alignment: u64) -> bool {
    exists|k: nat| k < 64 && alignment == #[trigger] pow2(k)
}

/// `size` rounded up to the next multiple of `alignment`.
pub open spec fn aligned_size(size: int, alignment: int) -> int {
    ((size + alignment - 1) / alignment) * alignment
}

/// Decides whether `alignment` is a power of two.
pub fn check_power_of_two(alignment: u64) -> (r: bool)
    ensures
        r == is_power_of_two(alignment),
{
    let mut candidate: u64 = 1;
    let mut k: u32 = 0;
    proof {
        lemma2_to64();
    }
    while k < 63
        invariant
            k <= 63,
            candidate == pow2(k as nat),
            forall|j: nat| j < k ==> alignment != #[trigger] pow2(j),
        decreases 63 - k,
    {
        if candidate == alignment {
            return true;
        }
        proof {
            lemma_pow2_unfold((k + 1) as nat);
            if k + 1 < 63 {
                lemma_pow2_strictly_increases((k + 1) as nat, 63);
            }
            lemma2_to64_rest();
        }
        candidate = candidate * 2;
        k = k + 1;
    }
    candidate == alignment
}

/// Clearing the low bits of `x` with the mask of a power of two rounds `x`
/// down to a multiple of that power.
pub proof fn lemma_mask_rounds_down(x: u64, alignment: u64)
    requires
        is_power_of_two(alignment),
    ensures
        alignment >= 1,
        (x & !((alignment - 1) as u64)) == (x / alignment) * alignment,
{
    let k = choose|k: nat| k < 64 && alignment == #[trigger] pow2(k);
    lemma_pow2_pos(k);
    let m: u64 = (alignment - 1) as u64;
    assert(x & !m == x - (x & m)) by (bit_vector);
    lemma_u64_low_bits_mask_is_mod(x, k);
    lemma_fundamental_div_mod(x as int, alignment as int);
    assert(alignment * (x / alignment) == (x / alignment) * alignment) by (nonlinear_arith);
}

/// A sum that leaves the 64-bit range rounds down to at least 2^64.
proof fn lemma_rounding_past_range(x: int, alignment: u64)
    requires
        is_power_of_two(alignment),
        x > u64::MAX,
    ensures
        (x / (alignment as int)) * alignment > u64::MAX,
{
    let k = choose|k: nat| k < 64 && alignment == #[trigger] pow2(k);
    let rest = (64 - k) as nat;
    lemma_pow2_adds(rest, k);
    lemma2_to64_rest();
    let a = alignment as int;
    let whole = pow2(rest) as int;
    lemma_div_multiples_vanish(whole, a);
    lemma_div_is_ordered(whole * a, x, a);
    assert((x / a) * a >= whole * a) by (nonlinear_arith)
        requires
            x / a >= whole,
            a >= 1,
    ;
}

/// The rounded size is the least multiple of the alignment that is no
/// smaller than the size.
pub proof fn lemma_aligned_size_bounds(size: int, alignment: int)
    requires
        size >= 0,
        alignment > 0,
    ensures
        aligned_size(size, alignment) % alignment == 0,
        size <= aligned_size(size, alignment) < size + alignment,
{
    let x = size + alignment - 1;
    lemma_fundamental_div_mod(x, alignment);
    assert(alignment * (x / alignment) == (x / alignment) * alignment) by (nonlinear_arith);
    assert(0 <= x % alignment < alignment) by (nonlinear_arith)
        requires
            alignment > 0,
    ;
    lemma_mod_multiples_basic(x / alignment, alignment);
}

/// Rounds `size` up to the next multiple of `alignment`, or reports that the
/// rounded size does not fit in 64 bits.
pub fn align_up(size: u64, alignment: u64) -> (r: Option<u64>)
    requires
        is_power_of_two(alignment),
    ensures
        match r {
            Some(v) => v == aligned_size(size as int, alignment as int),
            None => aligned_size(size as int, alignment as int) > u64::MAX,
        },
{
    proof {
        lemma_mask_rounds_down(0, alignment);
    }
    let mask: u64 = alignment - 1;
    match size.checked_add(mask) {
        Some(x) => {
            proof {
                lemma_mask_rounds_down(x, alignment);
            }
            Some(x & !mask)
        },
        None => {
            proof {
                lemma_rounding_past_range(size + alignment - 1, alignment);
            }
            None
        },
    }
}

} // verus!
