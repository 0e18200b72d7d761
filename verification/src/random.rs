//! Random integers between two bounds.
use vstd::prelude::*;

verus! {

/// Whether `r` lies between `a` and `b`, both included, whichever of the two
/// is the lower bound.
pub open spec fn between(a: i64, b: i64, r: i64) -> bool {
    (a <= r <= b) || (b <= r <= a)
}

/// `random_number::random_inclusively_cmp`, taken on trust: it orders its two
/// arguments and samples the closed interval between them from the thread's
/// generator; for equal arguments it returns that value. All that is claimed
/// here is that the result lies in the interval. Which value comes back is
/// left open, and so is how the values are distributed.
#[verifier::external_body]
pub(crate) fn random_between(a: i64, b: i64) -> (r: i64)
    ensures
        between(a, b, r),
{
    random_number::random_inclusively_cmp(a, b)
}

} // verus!
