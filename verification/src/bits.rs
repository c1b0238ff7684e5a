//! Facts about masks and bit fields that the rest of the library builds on.

use vstd::arithmetic::power2::*;
use vstd::bits::*;
use vstd::prelude::*;

verus! {

/// Whether `n` is a power of two.
pub fn is_power_of_two(n: usize) -> (r: bool)
    ensures
        r == is_pow2(n as int),
{
    proof {
        reveal(is_pow2);
        if n > 0 {
            lemma_single_bit(n);
        }
    }
    n > 0 && n & (n - 1) == 0
}

/// Clearing the lowest set bit leaves nothing exactly for powers of two.
proof fn lemma_single_bit(n: usize)
    requires
        n > 0,
    ensures
        (n & (n - 1) as usize == 0) == is_pow2(n as int),
    decreases n,
{
    reveal(is_pow2);
    let half: usize = n / 2;
    if n == 1 {
        assert(1usize & 0usize == 0usize) by (bit_vector);
    } else if n % 2 == 1 {
        let below = (n - 1) as usize;
        assert(n & below != 0) by (bit_vector)
            requires
                n % 2 == 1,
                n > 1,
                below == n - 1,
        ;
    } else {
        lemma_single_bit(half);
        let below = (n - 1) as usize;
        let half_below = (half - 1) as usize;
        assert((n & below == 0) == (half & half_below == 0)) by (bit_vector)
            requires
                n % 2 == 0,
                n > 1,
                below == n - 1,
                half == n / 2,
                half_below == half - 1,
        ;
    }
}

/// For a power of two, masking with one less is the remainder.
pub proof fn lemma_mask_is_remainder(x: usize, n: usize)
    requires
        is_pow2(n as int),
    ensures
        n > 0,
        x & (n - 1) as usize == x % n,
{
    is_pow2_equiv(n as int);
    let k = choose|k: nat| vstd::arithmetic::power::pow(2, k) == n;
    lemma_pow2_pos(k);
    assert(k < usize::BITS) by {
        lemma_exponent_in_range(k);
    }
    lemma_usize_low_bits_mask_is_mod(x, k);
}

/// A power of two that a `usize` holds has an exponent below its width.
proof fn lemma_exponent_in_range(k: nat)
    requires
        pow2(k) <= usize::MAX,
    ensures
        k < usize::BITS,
{
    if k >= usize::BITS {
        lemma2_to64();
        lemma2_to64_rest();
        if k > usize::BITS {
            lemma_pow2_strictly_increases(usize::BITS as nat, k);
        }
    }
}

} // verus!
