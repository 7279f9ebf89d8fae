//! Positions on stable ground: a candidate inside the dimension and the home range is kept when
//! the block under it is solid and walking there is not penalised.
use vstd::prelude::*;

use super::goal_utils::{is_not_stable, is_outside_limits, is_restricted, rejected_by_limits};
use super::random_pos::total_tester;
use crate::world::{BlockPos, DimensionHeight};

verus! {

/// The block right under `pos`.
pub open spec fn below(pos: BlockPos) -> BlockPos {
    BlockPos { x: pos.x, y: (pos.y - 1) as i32, z: pos.z }
}

/// Checks one candidate `pos` of the search on stable ground. `restrict` is whether the mob is
/// kept near its home and `in_home_range` whether `pos` lies in that range.
pub fn accept_candidate<S: Fn(&BlockPos) -> bool, M: Fn(&BlockPos) -> bool>(
    dimension: &DimensionHeight,
    pos: BlockPos,
    restrict: bool,
    in_home_range: bool,
    is_solid: S,
    has_malus: M,
) -> (r: bool)
    requires
        dimension.top_fits(),
        !rejected_by_limits(*dimension, pos, restrict, in_home_range) ==> pos.y > i32::MIN,
        total_tester(is_solid),
        total_tester(has_malus),
    ensures
        rejected_by_limits(*dimension, pos, restrict, in_home_range) ==> !r,
        !rejected_by_limits(*dimension, pos, restrict, in_home_range) ==> {
            &&& r ==> is_solid.ensures((&below(pos),), true) && has_malus.ensures((&pos,), false)
            &&& !r ==> is_solid.ensures((&below(pos),), false) || has_malus.ensures((&pos,), true)
        },
{
    if is_outside_limits(&pos, dimension) || is_restricted(restrict, in_home_range) {
        return false;
    }
    if is_not_stable(&pos, is_solid) {
        return false;
    }
    !has_malus(&pos)
}

} // verus!
