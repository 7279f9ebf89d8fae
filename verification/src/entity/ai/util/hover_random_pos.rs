//! Positions to hover over: a candidate inside the dimension and the home range, over solid
//! ground, is raised above the ground and kept unless it holds water or walking there is
//! penalised.
use vstd::prelude::*;

use super::default_random_pos::below;
use super::goal_utils::{is_not_stable, is_outside_limits, is_restricted, rejected_by_limits};
use super::random_pos::{move_up_to_above_solid, moved_up_to_above_solid, total_tester};
use crate::world::{BlockPos, DimensionHeight};

verus! {

/// Checks one candidate `pos` of the hover search; `above` is how many blocks to rise over
/// solid ground (drawn by the search). `restrict` is whether the mob is kept near its home and
/// `in_home_range` whether `pos` lies in that range.
pub fn accept_candidate<S: Fn(&BlockPos) -> bool + Copy, W: Fn(&BlockPos) -> bool, M: Fn(
    &BlockPos,
) -> bool>(
    dimension: &DimensionHeight,
    pos: BlockPos,
    restrict: bool,
    in_home_range: bool,
    above: i32,
    is_solid: S,
    is_water: W,
    has_malus: M,
) -> (r: Option<BlockPos>)
    requires
        dimension.wf(),
        !rejected_by_limits(*dimension, pos, restrict, in_home_range) ==> pos.y > i32::MIN,
        total_tester(is_solid),
        total_tester(is_water),
        total_tester(has_malus),
    ensures
        rejected_by_limits(*dimension, pos, restrict, in_home_range) ==> r is None,
        !rejected_by_limits(*dimension, pos, restrict, in_home_range) ==> match r {
            Some(p) => {
                &&& is_solid.ensures((&below(pos),), true)
                &&& moved_up_to_above_solid(is_solid, pos, above as int, dimension.top() - 1, p)
                &&& is_water.ensures((&p,), false)
                &&& has_malus.ensures((&p,), false)
            },
            None => is_solid.ensures((&below(pos),), false) || exists|p: BlockPos|
                #[trigger] moved_up_to_above_solid(is_solid, pos, above as int, dimension.top() - 1, p)
                    && (is_water.ensures((&p,), true) || has_malus.ensures((&p,), true)),
        },
{
    if is_outside_limits(&pos, dimension) || is_restricted(restrict, in_home_range) {
        return None;
    }
    if is_not_stable(&pos, is_solid) {
        return None;
    }
    let max_y = dimension.max_y();
    let raised = move_up_to_above_solid(pos, above, max_y, is_solid);
    if !is_water(&raised) && !has_malus(&raised) {
        Some(raised)
    } else {
        None
    }
}

} // verus!
