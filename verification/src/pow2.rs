//! Powers of two: the length to which a trace is padded.

use vstd::arithmetic::power2::lemma_pow2_strictly_increases;
use vstd::arithmetic::power2::pow2;
use vstd::prelude::*;

verus! {

/// `k` is the least exponent whose power of two reaches `x`.
pub open spec fn is_ceil_log2(x: nat, k: nat) -> bool {
    &&& x <= pow2(k)
    &&& k > 0 ==> pow2((k - 1) as nat) < x
}

/// `p` is the least power of two that reaches `x`.
pub open spec fn is_next_power_of_two(x: nat, p: nat) -> bool {
    exists|k: nat| p == pow2(k) && #[trigger] is_ceil_log2(x, k)
}

/// The base-2 logarithm of `x`, rounded up (0 for `x <= 1`).
pub open spec fn ceil_log2(x: nat) -> nat {
    choose|k: nat| is_ceil_log2(x, k)
}

/// The smallest power of two that is at least `x`.
pub open spec fn padded_length(x: nat) -> nat {
    pow2(ceil_log2(x))
}

/// There is only one least exponent.
pub proof fn lemma_ceil_log2_unique(x: nat, j: nat, k: nat)
    requires
        is_ceil_log2(x, j),
        is_ceil_log2(x, k),
    ensures
        j == k,
{
    if j < k {
        if j < k - 1 {
            lemma_pow2_strictly_increases(j, (k - 1) as nat);
        }
    } else if k < j {
        if k < j - 1 {
            lemma_pow2_strictly_increases(k, (j - 1) as nat);
        }
    }
}

/// An exponent that is known to be least is the rounded logarithm.
pub proof fn lemma_ceil_log2_is(x: nat, k: nat)
    requires
        is_ceil_log2(x, k),
    ensures
        ceil_log2(x) == k,
        padded_length(x) == pow2(k),
{
    lemma_ceil_log2_unique(x, ceil_log2(x), k);
}

} // verus!
