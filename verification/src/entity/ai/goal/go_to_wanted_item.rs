//! Walks an admiring piglin to the nearest item it wants, retrying after a random pause when
//! the path gets stuck.
use vstd::prelude::*;

use super::Controls;
use crate::entity::EntityId;
use crate::random::random_below;
use crate::world::BlockPos;

verus! {

/// The pause before retrying a stuck path is drawn from `0..MAX_COOLDOWN_BEFORE_RETRYING`.
pub const MAX_COOLDOWN_BEFORE_RETRYING: i32 = 40;

/// The nearest wanted item, as the goal sees it.
#[derive(Clone, Copy, Debug, PartialEq, Eq, Structural)]
pub struct WantedItem {
    pub entity_id: EntityId,
    /// The block the item lies in.
    pub block: BlockPos,
    /// Closer than the walking distance to items.
    pub within_walking_distance: bool,
    /// Inside the world border.
    pub inside_world_border: bool,
}

/// What one tick of walking does: look at the item, stop the navigation, and start a path to
/// the item.
#[derive(Clone, Copy, Debug, PartialEq, Eq, Structural)]
pub struct WalkStep {
    pub look_at_item: bool,
    pub stop_navigation: bool,
    pub walk_to_item: bool,
}

/// The walking state: the block last walked to, and the pause left before retrying.
#[derive(Clone, Copy, Debug, PartialEq, Eq, Structural)]
pub struct WantedItemWalk {
    pub last_target_block: Option<BlockPos>,
    pub remaining_cooldown: i32,
}

/// The square of the distance between two blocks.
pub open spec fn distance_squared(a: BlockPos, b: BlockPos) -> int {
    (a.x - b.x) * (a.x - b.x) + (a.y - b.y) * (a.y - b.y) + (a.z - b.z) * (a.z - b.z)
}

/// A new path is needed when nothing was walked to, or the item moved more than two blocks
/// away from the block last walked to.
pub open spec fn moved_far(last: Option<BlockPos>, target: BlockPos) -> bool {
    match last {
        Some(l) => distance_squared(target, l) > 4,
        None => true,
    }
}

/// One tick toward `target` from `mob`, with `roll` the pause drawn when a path got stuck:
/// the state after it and the step.
pub open spec fn walk_outcome(
    walk: WantedItemWalk,
    target: Option<BlockPos>,
    mob: BlockPos,
    navigator_idle: bool,
    navigator_stuck: bool,
    roll: int,
) -> (WantedItemWalk, WalkStep) {
    match target {
        None => (walk, WalkStep { look_at_item: false, stop_navigation: false, walk_to_item: false }),
        Some(t) => if t == mob {
            (
                WantedItemWalk { last_target_block: None, ..walk },
                WalkStep {
                    look_at_item: true,
                    stop_navigation: !navigator_idle,
                    walk_to_item: false,
                },
            )
        } else if navigator_idle {
            let cooldown = if walk.last_target_block is Some && navigator_stuck {
                roll
            } else {
                walk.remaining_cooldown as int
            };
            if cooldown > 0 {
                (
                    WantedItemWalk { last_target_block: None, remaining_cooldown: (cooldown - 1) as i32 },
                    WalkStep { look_at_item: true, stop_navigation: false, walk_to_item: false },
                )
            } else {
                (
                    WantedItemWalk { last_target_block: Some(t), remaining_cooldown: cooldown as i32 },
                    WalkStep { look_at_item: true, stop_navigation: false, walk_to_item: true },
                )
            }
        } else if moved_far(walk.last_target_block, t) {
            (
                WantedItemWalk { last_target_block: Some(t), ..walk },
                WalkStep { look_at_item: true, stop_navigation: false, walk_to_item: true },
            )
        } else {
            (walk, WalkStep { look_at_item: true, stop_navigation: false, walk_to_item: false })
        }
    }
}

/// The nearest wanted item the piglin walks to: only while it may pick up loot and has no
/// loved item in its off hand, and only an item within walking distance inside the border.
pub fn wanted_item_in_walking_range(
    can_pick_up_loot: bool,
    holds_loved_item_in_off_hand: bool,
    nearest: Option<WantedItem>,
) -> (r: Option<WantedItem>)
    ensures
        r == (if can_pick_up_loot && !holds_loved_item_in_off_hand {
            match nearest {
                Some(item) => if item.within_walking_distance && item.inside_world_border {
                    Some(item)
                } else {
                    None
                },
                None => None,
            }
        } else {
            None
        }),
{
    if !can_pick_up_loot || holds_loved_item_in_off_hand {
        return None;
    }
    match nearest {
        Some(item) => if item.within_walking_distance && item.inside_world_border {
            Some(item)
        } else {
            None
        },
        None => None,
    }
}

/// Whether two blocks are more than two blocks apart.
fn blocks_moved_far(last: Option<BlockPos>, target: BlockPos) -> (r: bool)
    ensures
        r == moved_far(last, target),
{
    match last {
        Some(l) => {
            let dx = target.x as i128 - l.x as i128;
            let dy = target.y as i128 - l.y as i128;
            let dz = target.z as i128 - l.z as i128;
            assert(0 <= dx * dx <= 0x1_0000_0000 * 0x1_0000_0000) by (nonlinear_arith)
                requires
                    -0x1_0000_0000 <= dx <= 0x1_0000_0000,
            ;
            assert(0 <= dy * dy <= 0x1_0000_0000 * 0x1_0000_0000) by (nonlinear_arith)
                requires
                    -0x1_0000_0000 <= dy <= 0x1_0000_0000,
            ;
            assert(0 <= dz * dz <= 0x1_0000_0000 * 0x1_0000_0000) by (nonlinear_arith)
                requires
                    -0x1_0000_0000 <= dz <= 0x1_0000_0000,
            ;
            dx * dx + dy * dy + dz * dz > 4
        },
        None => true,
    }
}

/// Whether the mob stands in the target block: the blocks are zero apart.
fn reached(target: BlockPos, mob: BlockPos) -> (r: bool)
    ensures
        r == (target == mob),
{
    let dx = target.x as i64 - mob.x as i64;
    let dy = target.y as i64 - mob.y as i64;
    let dz = target.z as i64 - mob.z as i64;
    let ax = if dx < 0 {
        -dx
    } else {
        dx
    };
    let ay = if dy < 0 {
        -dy
    } else {
        dy
    };
    let az = if dz < 0 {
        -dz
    } else {
        dz
    };
    ax + ay + az == 0
}

impl WantedItemWalk {
    pub fn new() -> (r: Self)
        ensures
            r == (WantedItemWalk { last_target_block: None, remaining_cooldown: 0 }),
    {
        WantedItemWalk { last_target_block: None, remaining_cooldown: 0 }
    }

    /// One tick of walking to the item in block `target` (when there is one in range), the
    /// mob standing in `mob`, with `roll` the pause to wait when the last path got stuck.
    pub fn go_to_wanted_item_with_roll(
        &mut self,
        target: Option<BlockPos>,
        mob: BlockPos,
        navigator_idle: bool,
        navigator_stuck: bool,
        roll: i32,
    ) -> (r: WalkStep)
        requires
            0 <= roll < MAX_COOLDOWN_BEFORE_RETRYING,
        ensures
            (*final(self), r) == walk_outcome(
                *old(self),
                target,
                mob,
                navigator_idle,
                navigator_stuck,
                roll as int,
            ),
    {
        let t = match target {
            Some(t) => t,
            None => {
                return WalkStep { look_at_item: false, stop_navigation: false, walk_to_item: false };
            },
        };
        if reached(t, mob) {
            self.last_target_block = None;
            return WalkStep {
                look_at_item: true,
                stop_navigation: !navigator_idle,
                walk_to_item: false,
            };
        }
        if navigator_idle {
            let had_target = self.last_target_block.is_some();
            self.last_target_block = None;
            if had_target && navigator_stuck {
                self.remaining_cooldown = roll;
            }
            if self.remaining_cooldown > 0 {
                self.remaining_cooldown -= 1;
                return WalkStep { look_at_item: true, stop_navigation: false, walk_to_item: false };
            }
        }
        if navigator_idle || blocks_moved_far(self.last_target_block, t) {
            self.last_target_block = Some(t);
            WalkStep { look_at_item: true, stop_navigation: false, walk_to_item: true }
        } else {
            WalkStep { look_at_item: true, stop_navigation: false, walk_to_item: false }
        }
    }

    /// One tick of walking; the pause after a stuck path is drawn at random.
    pub fn go_to_wanted_item(
        &mut self,
        target: Option<BlockPos>,
        mob: BlockPos,
        navigator_idle: bool,
        navigator_stuck: bool,
    ) -> (r: WalkStep)
        ensures
            exists|roll: int|
                0 <= roll < MAX_COOLDOWN_BEFORE_RETRYING && (*final(self), r) == #[trigger] walk_outcome(
                    *old(self),
                    target,
                    mob,
                    navigator_idle,
                    navigator_stuck,
                    roll,
                ),
    {
        let roll = if navigator_idle && self.last_target_block.is_some() && navigator_stuck {
            random_below(MAX_COOLDOWN_BEFORE_RETRYING)
        } else {
            0
        };
        self.go_to_wanted_item_with_roll(target, mob, navigator_idle, navigator_stuck, roll)
    }

    /// Forgets the walk; the navigation stops.
    pub fn stop(&mut self)
        ensures
            *final(self) == (WantedItemWalk { last_target_block: None, remaining_cooldown: 0 }),
    {
        self.last_target_block = None;
        self.remaining_cooldown = 0;
    }

    pub fn should_run_every_tick(&self) -> (r: bool)
        ensures
            r,
    {
        true
    }

    pub fn controls(&self) -> (r: Controls)
        ensures
            r == (Controls { movement: true, look: true, jump: false, target: false }),
    {
        Controls { movement: true, look: true, jump: false, target: false }
    }
}

/// The pause after a stuck path never goes negative and stays below the retry limit: starting
/// from a pause in `0..40`, every tick leaves one in `0..40`.
pub proof fn lemma_cooldown_stays_bounded(
    walk: WantedItemWalk,
    target: Option<BlockPos>,
    mob: BlockPos,
    navigator_idle: bool,
    navigator_stuck: bool,
    roll: int,
)
    requires
        0 <= walk.remaining_cooldown < MAX_COOLDOWN_BEFORE_RETRYING,
        0 <= roll < MAX_COOLDOWN_BEFORE_RETRYING,
    ensures
        0 <= walk_outcome(walk, target, mob, navigator_idle, navigator_stuck, roll).0.remaining_cooldown
            < MAX_COOLDOWN_BEFORE_RETRYING,
{
}

} // verus!
