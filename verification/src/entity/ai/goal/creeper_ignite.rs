//! A creeper close to its target lights its fuse, and lets it die down when the target gets
//! away or out of sight.
use vstd::prelude::*;

use super::Controls;
use crate::entity::EntityId;

verus! {

/// The creeper's target as the goal sees it when deciding to start.
#[derive(Clone, Copy, Debug, PartialEq, Eq, Structural)]
pub struct IgniteCandidate {
    pub alive: bool,
    /// Closer than 3 blocks.
    pub within_start_range: bool,
}

/// The remembered target as the goal sees it on a tick.
#[derive(Clone, Copy, Debug, PartialEq, Eq, Structural)]
pub struct IgniteTarget {
    pub alive: bool,
    /// Not farther than 7 blocks.
    pub within_fuse_range: bool,
    pub visible: bool,
}

/// The fuse speed a tick sets: 1 while the target is alive, close and in sight, -1 otherwise.
pub open spec fn fuse_speed_for(has_target: bool, target: Option<IgniteTarget>) -> int {
    match target {
        Some(t) => if has_target && t.alive && t.within_fuse_range && t.visible {
            1
        } else {
            -1
        },
        None => -1,
    }
}

pub struct CreeperIgniteGoal {
    creeper: EntityId,
    target: Option<EntityId>,
}

impl CreeperIgniteGoal {
    pub closed spec fn creeper_spec(&self) -> EntityId {
        self.creeper
    }

    pub closed spec fn target_spec(&self) -> Option<EntityId> {
        self.target
    }

    pub fn new(creeper: EntityId) -> (r: Self)
        ensures
            r.creeper_spec() == creeper,
            r.target_spec() is None,
    {
        CreeperIgniteGoal { creeper, target: None }
    }

    /// The creeper whose fuse the goal drives.
    pub fn creeper(&self) -> (r: EntityId)
        ensures
            r == self.creeper_spec(),
    {
        self.creeper
    }

    /// The target remembered at `start`.
    pub fn target(&self) -> (r: Option<EntityId>)
        ensures
            r == self.target_spec(),
    {
        self.target
    }

    /// Starts when the fuse is already burning, or when the mob's target is alive and close.
    pub fn can_start(&self, fuse_speed: i32, mob_target: Option<IgniteCandidate>) -> (r: bool)
        ensures
            r == (fuse_speed > 0 || match mob_target {
                Some(t) => t.alive && t.within_start_range,
                None => false,
            }),
    {
        if fuse_speed > 0 {
            return true;
        }
        match mob_target {
            Some(t) => t.alive && t.within_start_range,
            None => false,
        }
    }

    /// Remembers the mob's target; the navigation stops.
    pub fn start(&mut self, mob_target: Option<EntityId>)
        ensures
            final(self).target_spec() == mob_target,
            final(self).creeper_spec() == old(self).creeper_spec(),
    {
        self.target = mob_target;
    }

    pub fn stop(&mut self)
        ensures
            final(self).target_spec() is None,
            final(self).creeper_spec() == old(self).creeper_spec(),
    {
        self.target = None;
    }

    /// The fuse speed to set this tick; `target` describes the remembered target.
    pub fn tick(&self, target: Option<IgniteTarget>) -> (r: i32)
        ensures
            r == fuse_speed_for(self.target_spec() is Some, target),
    {
        if self.target.is_none() {
            return -1;
        }
        match target {
            Some(t) => if t.alive && t.within_fuse_range && t.visible {
                1
            } else {
                -1
            },
            None => -1,
        }
    }

    pub fn should_run_every_tick(&self) -> (r: bool)
        ensures
            r,
    {
        true
    }

    pub fn controls(&self) -> (r: Controls)
        ensures
            r == (Controls { movement: true, look: false, jump: false, target: false }),
    {
        Controls::movement()
    }
}

/// The fuse burns (speed 1) only while a target is remembered and it is alive, within 7
/// blocks and in sight; in every other case it dies down (speed -1). In particular a target
/// beyond 7 blocks never keeps the fuse burning, however visible.
pub proof fn lemma_fuse_needs_a_close_visible_target(has_target: bool, target: Option<IgniteTarget>)
    ensures
        fuse_speed_for(has_target, target) == 1 || fuse_speed_for(has_target, target) == -1,
        fuse_speed_for(has_target, target) == 1 <==> (has_target && target is Some
            && target.unwrap().alive && target.unwrap().within_fuse_range
            && target.unwrap().visible),
        target is Some && !target.unwrap().within_fuse_range ==> fuse_speed_for(has_target, target)
            == -1,
{
}

} // verus!
