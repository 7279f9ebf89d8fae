//! A mob hurt by a panic-causing source runs off; when it burns it runs to water nearby.
use vstd::prelude::*;

use super::Controls;
use crate::entity::ai::util::random_pos::total_tester;
use crate::world::BlockPos;

verus! {

/// Water is looked for up to this many blocks away horizontally...
pub const WATER_SEARCH_XZ: i32 = 5;

/// ...and vertically.
pub const WATER_SEARCH_Y: i32 = 1;

/// How far the random escape goes, horizontally and vertically.
pub const HORIZONTAL_RANGE: i32 = 5;

pub const VERTICAL_RANGE: i32 = 4;

/// Where the mob runs to.
#[derive(Clone, Copy, Debug, PartialEq, Eq, Structural)]
pub enum EscapePlan {
    /// It does not run.
    Stay,
    /// To the water block.
    ToWater(BlockPos),
    /// To a random position nearby, when one is found.
    Random,
}

/// The blocks searched for water around `center`.
pub open spec fn in_water_range(center: BlockPos, pos: BlockPos) -> bool {
    &&& center.x - WATER_SEARCH_XZ <= pos.x <= center.x + WATER_SEARCH_XZ
    &&& center.y - WATER_SEARCH_Y <= pos.y <= center.y + WATER_SEARCH_Y
    &&& center.z - WATER_SEARCH_XZ <= pos.z <= center.z + WATER_SEARCH_XZ
}

pub open spec fn abs(v: int) -> int {
    if v < 0 {
        -v
    } else {
        v
    }
}

/// How many blocks `pos` is from `center` along the axes.
pub open spec fn manhattan(center: BlockPos, pos: BlockPos) -> int {
    abs(pos.x - center.x) + abs(pos.y - center.y) + abs(pos.z - center.z)
}

/// `pos` is scanned before the offset `(dx, dy, dz)`: by x, then by height, then by z.
pub open spec fn water_scanned_before(center: BlockPos, pos: BlockPos, dx: int, dy: int, dz: int) -> bool {
    let px = pos.x - center.x;
    let py = pos.y - center.y;
    let pz = pos.z - center.z;
    px < dx || (px == dx && py < dy) || (px == dx && py == dy && pz < dz)
}

/// `pos` is not water, by the tester's answer.
pub open spec fn dry<F: Fn(&BlockPos) -> bool>(is_water: F, pos: BlockPos) -> bool {
    is_water.ensures((&pos,), false)
}

/// The water found is `best`: it is in range and water, no water in range is nearer, and none
/// scanned before it is as near.
pub open spec fn nearest_water<F: Fn(&BlockPos) -> bool>(is_water: F, center: BlockPos, best: BlockPos) -> bool {
    &&& in_water_range(center, best)
    &&& is_water.ensures((&best,), true)
    &&& forall|q: BlockPos| #[trigger] in_water_range(center, q) ==> dry(is_water, q) || manhattan(
        center,
        q,
    ) >= manhattan(center, best)
    &&& forall|q: BlockPos|
        #[trigger] in_water_range(center, q) && water_scanned_before(
            center,
            q,
            best.x - center.x,
            best.y - center.y,
            best.z - center.z,
        ) ==> dry(is_water, q) || manhattan(center, q) > manhattan(center, best)
}

/// The nearest water within 5 blocks horizontally and 1 vertically of `mob`, by axis
/// distance, the first in scan order on ties; none when the mob is stuck in a block.
pub fn look_for_water<F: Fn(&BlockPos) -> bool>(stuck_in_block: bool, mob: BlockPos, is_water: F) -> (r: Option<BlockPos>)
    requires
        total_tester(is_water),
        i32::MIN + WATER_SEARCH_XZ <= mob.x <= i32::MAX - WATER_SEARCH_XZ,
        i32::MIN + WATER_SEARCH_Y <= mob.y <= i32::MAX - WATER_SEARCH_Y,
        i32::MIN + WATER_SEARCH_XZ <= mob.z <= i32::MAX - WATER_SEARCH_XZ,
    ensures
        stuck_in_block ==> r is None,
        !stuck_in_block ==> match r {
            Some(best) => nearest_water(is_water, mob, best),
            None => forall|q: BlockPos| #[trigger] in_water_range(mob, q) ==> dry(is_water, q),
        },
{
    if stuck_in_block {
        return None;
    }
    let mut best: Option<(i32, BlockPos)> = None;
    let mut dx: i32 = -WATER_SEARCH_XZ;
    while dx <= WATER_SEARCH_XZ
        invariant
            -WATER_SEARCH_XZ <= dx <= WATER_SEARCH_XZ + 1,
            total_tester(is_water),
            i32::MIN + WATER_SEARCH_XZ <= mob.x <= i32::MAX - WATER_SEARCH_XZ,
            i32::MIN + WATER_SEARCH_Y <= mob.y <= i32::MAX - WATER_SEARCH_Y,
            i32::MIN + WATER_SEARCH_XZ <= mob.z <= i32::MAX - WATER_SEARCH_XZ,
            best_so_far(is_water, mob, best, dx as int, -WATER_SEARCH_Y as int, -WATER_SEARCH_XZ as int),
        decreases WATER_SEARCH_XZ + 1 - dx,
    {
        let mut dy: i32 = -WATER_SEARCH_Y;
        while dy <= WATER_SEARCH_Y
            invariant
                -WATER_SEARCH_XZ <= dx <= WATER_SEARCH_XZ,
                -WATER_SEARCH_Y <= dy <= WATER_SEARCH_Y + 1,
                total_tester(is_water),
                i32::MIN + WATER_SEARCH_XZ <= mob.x <= i32::MAX - WATER_SEARCH_XZ,
                i32::MIN + WATER_SEARCH_Y <= mob.y <= i32::MAX - WATER_SEARCH_Y,
                i32::MIN + WATER_SEARCH_XZ <= mob.z <= i32::MAX - WATER_SEARCH_XZ,
                best_so_far(is_water, mob, best, dx as int, dy as int, -WATER_SEARCH_XZ as int),
            decreases WATER_SEARCH_Y + 1 - dy,
        {
            let mut dz: i32 = -WATER_SEARCH_XZ;
            while dz <= WATER_SEARCH_XZ
                invariant
                    -WATER_SEARCH_XZ <= dx <= WATER_SEARCH_XZ,
                    -WATER_SEARCH_Y <= dy <= WATER_SEARCH_Y,
                    -WATER_SEARCH_XZ <= dz <= WATER_SEARCH_XZ + 1,
                    total_tester(is_water),
                    i32::MIN + WATER_SEARCH_XZ <= mob.x <= i32::MAX - WATER_SEARCH_XZ,
                    i32::MIN + WATER_SEARCH_Y <= mob.y <= i32::MAX - WATER_SEARCH_Y,
                    i32::MIN + WATER_SEARCH_XZ <= mob.z <= i32::MAX - WATER_SEARCH_XZ,
                    best_so_far(is_water, mob, best, dx as int, dy as int, dz as int),
                decreases WATER_SEARCH_XZ + 1 - dz,
            {
                let pos = BlockPos::new(mob.x + dx, mob.y + dy, mob.z + dz);
                let water = is_water(&pos);
                if water {
                    let ax = if dx < 0 {
                        -dx
                    } else {
                        dx
                    };
                    let ay = if dy < 0 {
                        -dy
                    } else {
                        dy
                    };
                    let az = if dz < 0 {
                        -dz
                    } else {
                        dz
                    };
                    let distance = ax + ay + az;
                    let better = match best {
                        None => true,
                        Some((best_distance, _)) => distance < best_distance,
                    };
                    if better {
                        best = Some((distance, pos));
                    }
                }
                dz += 1;
            }
            dy += 1;
        }
        dx += 1;
    }
    match best {
        Some((_, pos)) => Some(pos),
        None => None,
    }
}

/// The search state before offset `(dx, dy, dz)`: with nothing found, every block scanned was
/// dry; with a best found, it is the nearest water among the blocks scanned.
pub open spec fn best_so_far<F: Fn(&BlockPos) -> bool>(
    is_water: F,
    center: BlockPos,
    best: Option<(i32, BlockPos)>,
    dx: int,
    dy: int,
    dz: int,
) -> bool {
    match best {
        None => forall|q: BlockPos|
            #[trigger] in_water_range(center, q) && water_scanned_before(center, q, dx, dy, dz)
                ==> dry(is_water, q),
        Some((d, b)) => {
            &&& in_water_range(center, b)
            &&& water_scanned_before(center, b, dx, dy, dz)
            &&& is_water.ensures((&b,), true)
            &&& d == manhattan(center, b)
            &&& forall|q: BlockPos|
                #[trigger] in_water_range(center, q) && water_scanned_before(center, q, dx, dy, dz)
                    ==> dry(is_water, q) || manhattan(center, q) >= d
            &&& forall|q: BlockPos|
                #[trigger] in_water_range(center, q) && water_scanned_before(
                    center,
                    q,
                    b.x - center.x,
                    b.y - center.y,
                    b.z - center.z,
                ) ==> dry(is_water, q) || manhattan(center, q) > d
        },
    }
}

/// Where a mob runs: nowhere unless the damage it took causes panic; to water it found when it
/// burns; else to a random position.
pub fn escape_plan(should_panic: bool, on_fire: bool, water: Option<BlockPos>) -> (r: EscapePlan)
    ensures
        r == (if !should_panic {
            EscapePlan::Stay
        } else if on_fire && water is Some {
            EscapePlan::ToWater(water.unwrap())
        } else {
            EscapePlan::Random
        }),
{
    if !should_panic {
        return EscapePlan::Stay;
    }
    if on_fire {
        if let Some(pos) = water {
            return EscapePlan::ToWater(pos);
        }
    }
    EscapePlan::Random
}

/// Whether the mob is running from danger.
pub struct EscapeDanger {
    pub running: bool,
}

impl EscapeDanger {
    pub fn new() -> (r: Self)
        ensures
            !r.running,
    {
        EscapeDanger { running: false }
    }

    pub fn is_running(&self) -> (r: bool)
        ensures
            r == self.running,
    {
        self.running
    }

    /// The navigation heads for the target.
    pub fn start(&mut self)
        ensures
            final(self).running,
    {
        self.running = true;
    }

    pub fn stop(&mut self)
        ensures
            !final(self).running,
    {
        self.running = false;
    }

    pub fn controls(&self) -> (r: Controls)
        ensures
            r == (Controls { movement: true, look: false, jump: false, target: false }),
    {
        Controls::movement()
    }
}

} // verus!
