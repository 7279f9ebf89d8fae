//! The checks a random position candidate goes through.
use vstd::prelude::*;

use super::random_pos::total_tester;
use crate::world::{BlockPos, DimensionHeight};

verus! {

/// `pos` is outside the dimension, or outside the home range of a mob kept near its home
/// (`restrict`; `in_home_range` is whether `pos` lies in that range).
pub open spec fn rejected_by_limits(
    dimension: DimensionHeight,
    pos: BlockPos,
    restrict: bool,
    in_home_range: bool,
) -> bool {
    pos.y < dimension.min_y || pos.y >= dimension.top() || (restrict && !in_home_range)
}

/// Below the bottom or at/above the top of the dimension.
pub fn is_outside_limits(pos: &BlockPos, dimension: &DimensionHeight) -> (r: bool)
    requires
        dimension.top_fits(),
    ensures
        r == (pos.y < dimension.min_y || pos.y >= dimension.top()),
{
    pos.y < dimension.min_y || pos.y >= dimension.min_y + dimension.height
}

/// A mob kept near its home may not pick a position outside its home range.
/// `pos_in_home_range` is whether `pos` lies within that range.
pub fn is_restricted(restrict: bool, pos_in_home_range: bool) -> (r: bool)
    ensures
        r == (restrict && !pos_in_home_range),
{
    restrict && !pos_in_home_range
}

/// Nothing solid to stand on: the block under `pos` is not solid.
pub fn is_not_stable<F: Fn(&BlockPos) -> bool>(pos: &BlockPos, is_solid: F) -> (r: bool)
    requires
        total_tester(is_solid),
        pos.y > i32::MIN,
    ensures
        is_solid.ensures((&BlockPos { x: pos.x, y: (pos.y - 1) as i32, z: pos.z },), !r),
{
    !is_solid(&pos.down())
}

} // verus!
