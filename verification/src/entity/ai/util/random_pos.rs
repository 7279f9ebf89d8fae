//! Building blocks of the random position search: random offsets and moving a candidate up out
//! of solid ground.
use vstd::prelude::*;

use crate::random::random_below;
use crate::world::{BlockPos, Vector3};

verus! {

/// How many candidates a search draws; the best weighted one wins.
pub const RANDOM_POS_ATTEMPTS: usize = 10;

/// `tester` answered that `pos` is solid.
pub open spec fn tested_solid<F: Fn(&BlockPos) -> bool>(tester: F, pos: BlockPos) -> bool {
    tester.ensures((&pos,), true)
}

/// `tester` answered that `pos` is not solid.
pub open spec fn tested_free<F: Fn(&BlockPos) -> bool>(tester: F, pos: BlockPos) -> bool {
    tester.ensures((&pos,), false)
}

/// `tester` may be asked about any block.
pub open spec fn total_tester<F: Fn(&BlockPos) -> bool>(tester: F) -> bool {
    forall|p: &BlockPos| #[trigger] tester.requires((p,))
}

/// The block in the column of `pos` at height `y`.
pub open spec fn column_at(pos: BlockPos, y: int) -> BlockPos {
    BlockPos { x: pos.x, y: y as i32, z: pos.z }
}

/// Every block of the column of `pos` strictly between heights `lo` and `hi` tested solid.
pub open spec fn solid_between<F: Fn(&BlockPos) -> bool>(tester: F, pos: BlockPos, lo: int, hi: int) -> bool {
    forall|y: int| lo < y < hi ==> #[trigger] tested_solid(tester, column_at(pos, y))
}

/// `result` is `pos` moved up out of solid blocks, as `move_up_out_of_solid` does: `pos` itself
/// when it is free, else the first free block above it, or the block just above `max_y` when the
/// column is solid up to there.
pub open spec fn moved_up_out_of_solid<F: Fn(&BlockPos) -> bool>(
    tester: F,
    pos: BlockPos,
    max_y: int,
    result: BlockPos,
) -> bool {
    ||| tested_free(tester, pos) && result == pos
    ||| {
        &&& tested_solid(tester, pos)
        &&& result == column_at(pos, result.y as int)
        &&& pos.y < result.y
        &&& solid_between(tester, pos, pos.y as int, result.y as int)
        &&& (result.y > max_y ==> result.y == pos.y + 1 || result.y == max_y + 1)
        &&& (result.y <= max_y ==> tested_free(tester, result))
    }
}

/// A random offset with horizontal parts in `-horizontal_dist..=horizontal_dist` and a vertical
/// part in `-vertical_dist..=vertical_dist`.
pub fn generate_random_direction(horizontal_dist: i32, vertical_dist: i32) -> (r: Vector3<i32>)
    requires
        0 <= horizontal_dist,
        2 * horizontal_dist + 1 <= i32::MAX,
        0 <= vertical_dist,
        2 * vertical_dist + 1 <= i32::MAX,
    ensures
        -horizontal_dist <= r.x <= horizontal_dist,
        -vertical_dist <= r.y <= vertical_dist,
        -horizontal_dist <= r.z <= horizontal_dist,
{
    let x = random_below(2 * horizontal_dist + 1) - horizontal_dist;
    let y = random_below(2 * vertical_dist + 1) - vertical_dist;
    let z = random_below(2 * horizontal_dist + 1) - horizontal_dist;
    Vector3::new(x, y, z)
}

/// Moves `pos` up to the first block above it that is not solid, stopping just above `max_y`.
/// A position that is not solid is returned untouched.
pub fn move_up_out_of_solid<F: Fn(&BlockPos) -> bool>(pos: BlockPos, max_y: i32, solidity_tester: F) -> (r: BlockPos)
    requires
        total_tester(solidity_tester),
        pos.y < i32::MAX || !tested_solid(solidity_tester, pos),
        max_y < i32::MAX,
    ensures
        moved_up_out_of_solid(solidity_tester, pos, max_y as int, r),
{
    if !solidity_tester(&pos) {
        return pos;
    }
    let mut on_ground = pos.up();
    loop
        invariant_except_break
            total_tester(solidity_tester),
            max_y < i32::MAX,
            tested_solid(solidity_tester, pos),
            on_ground == column_at(pos, on_ground.y as int),
            pos.y < on_ground.y,
            on_ground.y <= max_y + 1 || on_ground.y == pos.y + 1,
            solid_between(solidity_tester, pos, pos.y as int, on_ground.y as int),
        ensures
            moved_up_out_of_solid(solidity_tester, pos, max_y as int, on_ground),
        decreases max_y + 1 - on_ground.y,
    {
        if on_ground.y > max_y {
            break;
        }
        let solid = solidity_tester(&on_ground);
        if !solid {
            break;
        }
        assert(tested_solid(solidity_tester, column_at(pos, on_ground.y as int)));
        on_ground = on_ground.up();
        assert forall|y: int| pos.y < y < on_ground.y implies #[trigger] tested_solid(
            solidity_tester,
            column_at(pos, y),
        ) by {
            if y < on_ground.y - 1 {
                assert(solid_between(solidity_tester, pos, pos.y as int, on_ground.y - 1));
            }
        }
    }
    on_ground
}

/// Every block of the column of `base` from just above it up to height `hi` tested free.
pub open spec fn free_up_to<F: Fn(&BlockPos) -> bool>(tester: F, base: BlockPos, hi: int) -> bool {
    forall|y: int| base.y < y <= hi ==> #[trigger] tested_free(tester, column_at(base, y))
}

/// `result` is `base` raised through free blocks, as the second phase of
/// `move_up_to_above_solid` does: up to `amount` blocks, never through a solid block, and never
/// above the block just above `max_y` (a `base` already higher stays where it is).
pub open spec fn raised_above<F: Fn(&BlockPos) -> bool>(
    tester: F,
    base: BlockPos,
    amount: int,
    max_y: int,
    result: BlockPos,
) -> bool {
    &&& result == column_at(base, result.y as int)
    &&& base.y <= result.y
    &&& result.y - base.y <= (if amount > 0 { amount } else { 0 })
    &&& (result.y <= max_y + 1 || result.y == base.y)
    &&& free_up_to(tester, base, result.y as int)
    &&& (result.y - base.y >= amount || result.y > max_y || tested_solid(
        tester,
        column_at(base, result.y + 1),
    ))
}

/// `result` is what `move_up_to_above_solid` gives for `pos`: `pos` itself when it is free,
/// else the first free block above it, raised by up to `amount` more free blocks.
pub open spec fn moved_up_to_above_solid<F: Fn(&BlockPos) -> bool>(
    tester: F,
    pos: BlockPos,
    amount: int,
    max_y: int,
    result: BlockPos,
) -> bool {
    ||| tested_free(tester, pos) && result == pos
    ||| tested_solid(tester, pos) && exists|base: BlockPos|
        #[trigger] moved_up_out_of_solid(tester, pos, max_y, base) && raised_above(
            tester,
            base,
            amount,
            max_y,
            result,
        )
}

/// Pushes `pos` up out of any solid stack, then up to `above_solid_amount` blocks further while
/// there is room.
pub fn move_up_to_above_solid<F: Fn(&BlockPos) -> bool>(
    pos: BlockPos,
    above_solid_amount: i32,
    max_y: i32,
    solidity_tester: F,
) -> (r: BlockPos)
    requires
        total_tester(solidity_tester),
        pos.y < i32::MAX || !tested_solid(solidity_tester, pos),
        max_y < i32::MAX,
    ensures
        moved_up_to_above_solid(solidity_tester, pos, above_solid_amount as int, max_y as int, r),
{
    if !solidity_tester(&pos) {
        return pos;
    }
    let mut base = pos.up();
    loop
        invariant_except_break
            total_tester(solidity_tester),
            max_y < i32::MAX,
            tested_solid(solidity_tester, pos),
            base == column_at(pos, base.y as int),
            pos.y < base.y,
            base.y <= max_y + 1 || base.y == pos.y + 1,
            solid_between(solidity_tester, pos, pos.y as int, base.y as int),
        ensures
            moved_up_out_of_solid(solidity_tester, pos, max_y as int, base),
        decreases max_y + 1 - base.y,
    {
        if base.y > max_y {
            break;
        }
        let solid = solidity_tester(&base);
        if !solid {
            break;
        }
        assert(tested_solid(solidity_tester, column_at(pos, base.y as int)));
        base = base.up();
        assert forall|y: int| pos.y < y < base.y implies #[trigger] tested_solid(
            solidity_tester,
            column_at(pos, y),
        ) by {
            if y < base.y - 1 {
                assert(solid_between(solidity_tester, pos, pos.y as int, base.y - 1));
            }
        }
    }
    let mut current = base;
    let first_non_solid_y = base.y;
    loop
        invariant_except_break
            total_tester(solidity_tester),
            max_y < i32::MAX,
            first_non_solid_y == base.y,
            current == column_at(base, current.y as int),
            base.y <= current.y,
            current.y - base.y <= (if above_solid_amount > 0 { above_solid_amount as int } else { 0 }),
            current.y <= max_y + 1 || current.y == base.y,
            free_up_to(solidity_tester, base, current.y as int),
        ensures
            raised_above(solidity_tester, base, above_solid_amount as int, max_y as int, current),
        decreases max_y + 1 - current.y,
    {
        if current.y > max_y || current.y - first_non_solid_y >= above_solid_amount {
            break;
        }
        let above = current.up();
        let solid = solidity_tester(&above);
        if solid {
            assert(above == column_at(base, current.y + 1));
            break;
        }
        current = above;
        assert forall|y: int| base.y < y <= current.y implies #[trigger] tested_free(
            solidity_tester,
            column_at(base, y),
        ) by {
            if y < current.y {
                assert(free_up_to(solidity_tester, base, current.y - 1));
            }
        }
    }
    current
}

} // verus!
