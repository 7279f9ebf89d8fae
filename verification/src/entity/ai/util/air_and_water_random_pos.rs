//! Positions in open air or water: a candidate inside the dimension and the home range is
//! pushed up out of solid blocks and kept unless walking there is penalised.
use vstd::prelude::*;

use super::goal_utils::{is_outside_limits, is_restricted, rejected_by_limits};
use super::random_pos::{move_up_out_of_solid, moved_up_out_of_solid, total_tester};
use crate::world::{BlockPos, DimensionHeight};

verus! {

/// Checks one candidate `pos` of the air and water search. `restrict` is whether the mob is
/// kept near its home and `in_home_range` whether `pos` lies in that range.
pub fn accept_candidate<S: Fn(&BlockPos) -> bool, M: Fn(&BlockPos) -> bool>(
    dimension: &DimensionHeight,
    pos: BlockPos,
    restrict: bool,
    in_home_range: bool,
    is_solid: S,
    has_malus: M,
) -> (r: Option<BlockPos>)
    requires
        dimension.wf(),
        total_tester(is_solid),
        total_tester(has_malus),
    ensures
        rejected_by_limits(*dimension, pos, restrict, in_home_range) ==> r is None,
        !rejected_by_limits(*dimension, pos, restrict, in_home_range) ==> match r {
            Some(p) => {
                &&& moved_up_out_of_solid(is_solid, pos, dimension.top() - 1, p)
                &&& has_malus.ensures((&p,), false)
            },
            None => exists|p: BlockPos|
                #[trigger] moved_up_out_of_solid(is_solid, pos, dimension.top() - 1, p)
                    && has_malus.ensures((&p,), true),
        },
{
    if is_outside_limits(&pos, dimension) || is_restricted(restrict, in_home_range) {
        return None;
    }
    let max_y = dimension.max_y();
    let moved = move_up_out_of_solid(pos, max_y, is_solid);
    if has_malus(&moved) {
        None
    } else {
        Some(moved)
    }
}

} // verus!
