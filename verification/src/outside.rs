//! What the crate takes on trust: contracts of functions that it calls and that
//! live outside it.

use crate::pow2::is_ceil_log2;
use crate::pow2::is_next_power_of_two;
use rayon::iter::IntoParallelRefIterator;
use rayon::iter::ParallelExtend;
use vstd::arithmetic::power2::pow2;
use vstd::prelude::*;

verus! {

/// `ark_std::log2`: the base-2 logarithm of `x`, rounded up, and 0 for `x == 0`.
pub assume_specification[ ark_std::log2 ](x: usize) -> (r: u32)
    ensures
        is_ceil_log2(x as nat, r as nat),
;

/// `usize::next_power_of_two`: the smallest power of two that is at least `x`. It
/// overflows where that power does not fit in a `usize`, hence the bound.
pub assume_specification[ usize::next_power_of_two ](x: usize) -> (r: usize)
    requires
        x <= pow2((usize::BITS - 1) as nat),
    ensures
        is_next_power_of_two(x as nat, r as nat),
;

/// `rayon::join`: runs both closures, possibly in parallel, and returns what each
/// of them returned.
pub assume_specification<A, B, RA, RB>[ rayon::join::<A, B, RA, RB> ](
    oper_a: A,
    oper_b: B,
) -> (r: (RA, RB)) where A: FnOnce() -> RA + Send, B: FnOnce() -> RB + Send, RA: Send, RB: Send
    requires
        call_requires(oper_a, ()),
        call_requires(oper_b, ()),
    ensures
        call_ensures(oper_a, (), r.0),
        call_ensures(oper_b, (), r.1),
;

/// `ParallelExtend::par_extend` of a vector, over the `par_iter` of a slice: copies
/// the items of the slice behind those of the vector, in the slice's order.
#[verifier::external_body]
pub(crate) fn par_extend<T: Copy + Send + Sync>(vec: &mut Vec<T>, items: &[T])
    requires
        old(vec)@.len() + items@.len() <= usize::MAX,
    ensures
        final(vec)@ == old(vec)@ + items@,
{
    vec.par_extend(items.par_iter())
}

} // verus!
