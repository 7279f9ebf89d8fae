use vstd::prelude::*;

verus! {

/// Draws from `rand::random_range(0..bound)`, which samples the thread-local generator
/// uniformly over the half-open range and panics on an empty one. Only the range is stated:
/// the value itself is chance.
#[verifier::external_body]
pub(crate) fn random_below(bound: i32) -> (r: i32)
    requires
        bound > 0,
    ensures
        0 <= r < bound,
{
    rand::random_range(0..bound)
}

} // verus!
