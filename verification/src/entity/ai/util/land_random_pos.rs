//! Land positions: the candidate is pushed up out of solid blocks, and water is rejected.
use vstd::prelude::*;

use super::default_random_pos::below;
use super::goal_utils::{is_not_stable, is_outside_limits, is_restricted, rejected_by_limits};
use super::random_pos::{move_up_out_of_solid, moved_up_out_of_solid, tested_solid, total_tester};
use crate::world::{BlockPos, DimensionHeight};

verus! {

/// `pos` moved up out of solid blocks (up to the top of `dimension`), kept when the block
/// reached is neither water nor penalised for walking.
pub fn move_pos_up_out_of_solid<S: Fn(&BlockPos) -> bool, W: Fn(&BlockPos) -> bool, M: Fn(
    &BlockPos,
) -> bool>(
    dimension: &DimensionHeight,
    pos: BlockPos,
    is_solid: S,
    is_water: W,
    has_malus: M,
) -> (r: Option<BlockPos>)
    requires
        dimension.wf(),
        pos.y < i32::MAX || !tested_solid(is_solid, pos),
        total_tester(is_solid),
        total_tester(is_water),
        total_tester(has_malus),
    ensures
        match r {
            Some(p) => {
                &&& moved_up_out_of_solid(is_solid, pos, dimension.top() - 1, p)
                &&& is_water.ensures((&p,), false)
                &&& has_malus.ensures((&p,), false)
            },
            None => exists|p: BlockPos|
                #[trigger] moved_up_out_of_solid(is_solid, pos, dimension.top() - 1, p) && (
                is_water.ensures((&p,), true) || has_malus.ensures((&p,), true)),
        },
{
    let max_y = dimension.max_y();
    let pos = move_up_out_of_solid(pos, max_y, is_solid);
    if !is_water(&pos) && !has_malus(&pos) {
        Some(pos)
    } else {
        None
    }
}

/// Checks one candidate `pos` of the land search: inside the dimension and the home range,
/// over solid ground, then moved up out of solid blocks and kept as
/// `move_pos_up_out_of_solid` says. `restrict` is whether the mob is kept near its home and
/// `in_home_range` whether `pos` lies in that range.
pub fn accept_candidate<S: Fn(&BlockPos) -> bool + Copy, W: Fn(&BlockPos) -> bool, M: Fn(
    &BlockPos,
) -> bool>(
    dimension: &DimensionHeight,
    pos: BlockPos,
    restrict: bool,
    in_home_range: bool,
    is_solid: S,
    is_water: W,
    has_malus: M,
) -> (r: Option<BlockPos>)
    requires
        dimension.wf(),
        !rejected_by_limits(*dimension, pos, restrict, in_home_range) ==> pos.y > i32::MIN,
        total_tester(is_solid),
        total_tester(is_water),
        total_tester(has_malus),
    ensures
        rejected_by_limits(*dimension, pos, restrict, in_home_range) ==> r is None,
        !rejected_by_limits(*dimension, pos, restrict, in_home_range) ==> match r {
            Some(p) => {
                &&& is_solid.ensures((&below(pos),), true)
                &&& moved_up_out_of_solid(is_solid, pos, dimension.top() - 1, p)
                &&& is_water.ensures((&p,), false)
                &&& has_malus.ensures((&p,), false)
            },
            None => is_solid.ensures((&below(pos),), false) || exists|p: BlockPos|
                #[trigger] moved_up_out_of_solid(is_solid, pos, dimension.top() - 1, p) && (
                is_water.ensures((&p,), true) || has_malus.ensures((&p,), true)),
        },
{
    if is_outside_limits(&pos, dimension) || is_restricted(restrict, in_home_range) {
        return None;
    }
    if is_not_stable(&pos, is_solid) {
        return None;
    }
    move_pos_up_out_of_solid(dimension, pos, is_solid, is_water, has_malus)
}

} // verus!
