//! A tamed mob attacks whatever its owner last attacked.
use vstd::prelude::*;

use super::Controls;
use super::track_target::{
    TrackContext, TrackTargetGoal, TrackTargetGoalView, continue_outcome, fresh_track_view,
    track_outcome,
};
use crate::entity::EntityId;

verus! {

/// The owner's record of its last attack.
#[derive(Clone, Copy, Debug, PartialEq, Eq, Structural)]
pub struct OwnerAttack {
    pub last_attack_time: i32,
    /// The entity the owner attacked, 0 when none.
    pub last_attacking_id: EntityId,
}

/// What `can_start` reads of the world.
#[derive(Clone, Copy, Debug, PartialEq, Eq, Structural)]
pub struct OwnerHurtContext {
    pub tamed: bool,
    pub sitting: bool,
    /// The owner's attack record, when the mob has an owner and the owner is in the world.
    pub owner: Option<OwnerAttack>,
    /// The entity the owner attacked is still in the world.
    pub other_exists: bool,
    /// The attackable target predicate accepts it.
    pub other_passes: bool,
    /// The mob may attack it on its owner's behalf.
    pub can_attack_with_owner: bool,
}

pub struct OwnerHurtTargetGoal {
    track_target_goal: TrackTargetGoal,
    target: Option<EntityId>,
    timestamp: i32,
}

pub struct OwnerHurtTargetGoalView {
    pub track: TrackTargetGoalView,
    pub target: Option<EntityId>,
    pub timestamp: i32,
}

impl View for OwnerHurtTargetGoal {
    type V = OwnerHurtTargetGoalView;

    closed spec fn view(&self) -> OwnerHurtTargetGoalView {
        OwnerHurtTargetGoalView {
            track: self.track_target_goal@,
            target: self.target,
            timestamp: self.timestamp,
        }
    }
}

impl OwnerHurtTargetGoalView {
    /// The checks before the tracking check: a tamed mob standing up, an owner with an attack
    /// not yet answered, on an entity that is still there.
    pub open spec fn owner_attack_counts(self, ctx: OwnerHurtContext) -> bool {
        &&& ctx.tamed
        &&& !ctx.sitting
        &&& ctx.owner is Some
        &&& ctx.owner.unwrap().last_attack_time != self.timestamp
        &&& ctx.owner.unwrap().last_attacking_id != 0
        &&& ctx.other_exists
    }
}

impl OwnerHurtTargetGoal {
    pub fn new() -> (r: Box<Self>)
        ensures
            r@ == (OwnerHurtTargetGoalView {
                track: fresh_track_view(false, false),
                target: None,
                timestamp: 0,
            }),
    {
        Box::new(OwnerHurtTargetGoal {
            track_target_goal: TrackTargetGoal::with_default(false),
            target: None,
            timestamp: 0,
        })
    }

    pub fn can_start(&mut self, ctx: &OwnerHurtContext) -> (r: bool)
        ensures
            !old(self)@.owner_attack_counts(*ctx) ==> !r && final(self)@ == old(self)@,
            old(self)@.owner_attack_counts(*ctx) ==> {
                let other = ctx.owner.unwrap().last_attacking_id;
                &&& exists|kept: bool|
                    #[trigger] track_outcome(
                        old(self)@.track,
                        Some(other),
                        ctx.other_passes,
                        kept,
                        final(self)@.track,
                    ) && r == (kept && ctx.can_attack_with_owner)
                &&& final(self)@ == (OwnerHurtTargetGoalView {
                    track: final(self)@.track,
                    target: if r {
                        Some(other)
                    } else {
                        old(self)@.target
                    },
                    ..old(self)@
                })
            },
    {
        if !ctx.tamed || ctx.sitting {
            return false;
        }
        let owner = match &ctx.owner {
            Some(o) => o,
            None => {
                return false;
            },
        };
        if owner.last_attack_time == self.timestamp {
            return false;
        }
        let other_id = owner.last_attacking_id;
        if other_id == 0 {
            return false;
        }
        if !ctx.other_exists {
            return false;
        }
        let kept = self.track_target_goal.can_track(Some(other_id), ctx.other_passes);
        if !kept || !ctx.can_attack_with_owner {
            return false;
        }
        self.target = Some(other_id);
        true
    }

    pub fn should_continue(&mut self, ctx: &TrackContext) -> (r: Option<EntityId>)
        requires
            old(self)@.track.check_visibility ==> old(self)@.track.can_count_unseen(),
        ensures
            final(self)@ == (OwnerHurtTargetGoalView { track: final(self)@.track, ..old(self)@ }),
            continue_outcome(old(self)@.track, *ctx, r, final(self)@.track),
    {
        self.track_target_goal.should_continue(ctx)
    }

    /// Returns the mob's new target. `owner_last_attack_time` is the owner's last attack time,
    /// when the owner is in the world; it is remembered so the same attack is not answered twice.
    pub fn start(&mut self, owner_last_attack_time: Option<i32>) -> (r: Option<EntityId>)
        ensures
            r == old(self)@.target,
            final(self)@ == (OwnerHurtTargetGoalView {
                track: old(self)@.track.restarted(),
                timestamp: match owner_last_attack_time {
                    Some(t) => t,
                    None => old(self)@.timestamp,
                },
                ..old(self)@
            }),
    {
        if let Some(t) = owner_last_attack_time {
            self.timestamp = t;
        }
        self.track_target_goal.start();
        self.target
    }

    /// Forgets the target; the mob's own target is cleared with it.
    pub fn stop(&mut self)
        ensures
            final(self)@ == (OwnerHurtTargetGoalView {
                track: TrackTargetGoalView { target_mob: None, ..old(self)@.track },
                target: None,
                ..old(self)@
            }),
    {
        self.target = None;
        self.track_target_goal.stop();
    }

    pub fn controls(&self) -> (r: Controls)
        ensures
            r == (Controls { movement: false, look: false, jump: false, target: true }),
    {
        self.track_target_goal.controls()
    }
}

/// The owner's attack is answered once: once `start` has recorded the owner's attack time,
/// `can_start` on the same attack does not start the goal again.
pub proof fn lemma_owner_attack_answered_once(v: OwnerHurtTargetGoalView, ctx: OwnerHurtContext)
    requires
        ctx.owner is Some,
        v.timestamp == ctx.owner.unwrap().last_attack_time,
    ensures
        !v.owner_attack_counts(ctx),
{
}

} // verus!
