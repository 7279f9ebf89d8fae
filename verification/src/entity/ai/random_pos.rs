//! The random land position search used to throw items around.
use vstd::prelude::*;

use super::util::random_pos::{move_up_out_of_solid, moved_up_out_of_solid, tested_solid, total_tester};
use crate::random::random_below;
use crate::world::{BlockPos, DimensionHeight};

verus! {

/// How many candidates a search draws.
pub const ATTEMPTS: usize = 10;

/// A random offset with horizontal parts in `-horizontal_dist..=horizontal_dist` and a vertical
/// part in `-vertical_dist..=vertical_dist`.
pub fn generate_random_direction(horizontal_dist: i32, vertical_dist: i32) -> (r: BlockPos)
    requires
        0 <= horizontal_dist,
        2 * horizontal_dist + 1 <= i32::MAX,
        0 <= vertical_dist,
        2 * vertical_dist + 1 <= i32::MAX,
    ensures
        -horizontal_dist <= r.x <= horizontal_dist,
        -vertical_dist <= r.y <= vertical_dist,
        -horizontal_dist <= r.z <= horizontal_dist,
{
    BlockPos::new(
        random_below(2 * horizontal_dist + 1) - horizontal_dist,
        random_below(2 * vertical_dist + 1) - vertical_dist,
        random_below(2 * horizontal_dist + 1) - horizontal_dist,
    )
}

/// Below the bottom or at/above the top of the dimension.
pub fn is_outside_build_height(dimension: &DimensionHeight, y: i32) -> (r: bool)
    requires
        dimension.top_fits(),
    ensures
        r == (y < dimension.min_y || y >= dimension.top()),
{
    y < dimension.min_y || y >= dimension.min_y + dimension.height
}

/// `pos` moved up out of solid blocks (up to the top of `dimension`), kept when the block
/// reached holds no water and is not penalised for walking.
pub fn move_pos_up_out_of_solid<S: Fn(&BlockPos) -> bool, W: Fn(&BlockPos) -> bool, M: Fn(
    &BlockPos,
) -> bool>(
    dimension: &DimensionHeight,
    pos: BlockPos,
    is_solid: S,
    has_water: W,
    has_malus: M,
) -> (r: Option<BlockPos>)
    requires
        dimension.wf(),
        pos.y < i32::MAX || !tested_solid(is_solid, pos),
        total_tester(is_solid),
        total_tester(has_water),
        total_tester(has_malus),
    ensures
        match r {
            Some(p) => {
                &&& moved_up_out_of_solid(is_solid, pos, dimension.top() - 1, p)
                &&& has_water.ensures((&p,), false)
                &&& has_malus.ensures((&p,), false)
            },
            None => exists|p: BlockPos|
                #[trigger] moved_up_out_of_solid(is_solid, pos, dimension.top() - 1, p) && (
                has_water.ensures((&p,), true) || has_malus.ensures((&p,), true)),
        },
{
    let max_y = dimension.max_y();
    let pos = move_up_out_of_solid(pos, max_y, is_solid);
    if !has_water(&pos) && !has_malus(&pos) {
        Some(pos)
    } else {
        None
    }
}

} // verus!
