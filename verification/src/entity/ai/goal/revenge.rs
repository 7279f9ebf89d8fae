//! Targets whoever last hurt the mob, and optionally wakes up nearby mobs of the same kind.
use vstd::prelude::*;

use super::Controls;
use super::track_target::{
    TrackContext, TrackTargetGoal, TrackTargetGoalView, continue_outcome, fresh_track_view,
    track_outcome,
};
use crate::entity::{EntityId, EntityKind};

verus! {

/// How long a revenge target out of sight is remembered, in server ticks.
pub const REVENGE_MEMORY_TICKS: i32 = 300;

/// A set of entity types; a set covers whole hierarchies too, like every raider.
pub struct EntityTypeFilter {
    types: Vec<EntityKind>,
}

impl View for EntityTypeFilter {
    type V = Seq<EntityKind>;

    closed spec fn view(&self) -> Seq<EntityKind> {
        self.types@
    }
}

impl EntityTypeFilter {
    pub fn new(types: Vec<EntityKind>) -> (r: Self)
        ensures
            r@ == types@,
    {
        EntityTypeFilter { types }
    }

    /// Whether `entity_type` is one of the filter's types.
    pub fn matches(&self, entity_type: EntityKind) -> (r: bool)
        ensures
            r == self@.contains(entity_type),
    {
        let mut i: usize = 0;
        while i < self.types.len()
            invariant
                0 <= i <= self.types@.len(),
                forall|j: int| 0 <= j < i ==> self.types@[j] != entity_type,
            decreases self.types@.len() - i,
        {
            if self.types[i] == entity_type {
                assert(self.types@[i as int] == entity_type);
                return true;
            }
            i += 1;
        }
        false
    }
}

/// Whether an optional filter exists and matches.
pub open spec fn filter_matches(filter: Option<Seq<EntityKind>>, entity_type: EntityKind) -> bool {
    match filter {
        Some(types) => types.contains(entity_type),
        None => false,
    }
}

fn optional_filter_matches(filter: &Option<EntityTypeFilter>, entity_type: EntityKind) -> (r: bool)
    ensures
        r == filter_matches(
            match filter {
                Some(f) => Some(f@),
                None => None,
            },
            entity_type,
        ),
{
    match filter {
        Some(f) => f.matches(entity_type),
        None => false,
    }
}

/// What `can_start` reads of the world: the mob's last attack record and the attacker.
#[derive(Clone, Copy, Debug, PartialEq, Eq, Structural)]
pub struct RevengeContext {
    /// When the mob was last attacked.
    pub last_attacked_time: i32,
    /// Who attacked it last, 0 when nobody did.
    pub last_attacker_id: EntityId,
    /// The type of the entity with that id, when it is still in the world.
    pub attacker_type: Option<EntityKind>,
    /// The `universal_anger` game rule.
    pub universal_anger: bool,
    /// The attackable target predicate (visibility and distance scaling ignored) accepts it.
    pub attacker_passes: bool,
}

/// The mob that raises the alert.
#[derive(Clone, Copy, Debug, PartialEq, Eq, Structural)]
pub struct AlertSource {
    pub entity_id: EntityId,
    pub entity_type: EntityKind,
    /// The mob can be tamed; then only mobs of the same owner answer.
    pub tamable: bool,
    pub owner: Option<u128>,
}

/// A mob near the one that raises the alert.
#[derive(Clone, Copy, Debug, PartialEq, Eq, Structural)]
pub struct AlertCandidate {
    pub entity_id: EntityId,
    pub entity_type: EntityKind,
    pub is_spectator: bool,
    pub is_mob: bool,
    pub has_target: bool,
    pub owner: Option<u128>,
    pub allied_to_attacker: bool,
}

/// What `start` decides: the mob's new target and the mobs alerted to the attacker.
pub struct RevengeStart {
    pub target: Option<EntityId>,
    pub alerted: Vec<EntityId>,
}

pub struct RevengeGoal {
    track_target_goal: TrackTargetGoal,
    target: Option<EntityId>,
    last_attacked_time: i32,
    ignore_damage_from: Option<EntityTypeFilter>,
    alert_others: bool,
    ignore_alert: Option<EntityTypeFilter>,
}

pub struct RevengeGoalView {
    pub track: TrackTargetGoalView,
    pub target: Option<EntityId>,
    pub last_attacked_time: i32,
    pub ignore_damage_from: Option<Seq<EntityKind>>,
    pub alert_others: bool,
    pub ignore_alert: Option<Seq<EntityKind>>,
}

impl View for RevengeGoal {
    type V = RevengeGoalView;

    closed spec fn view(&self) -> RevengeGoalView {
        RevengeGoalView {
            track: self.track_target_goal@,
            target: self.target,
            last_attacked_time: self.last_attacked_time,
            ignore_damage_from: match self.ignore_damage_from {
                Some(f) => Some(f@),
                None => None,
            },
            alert_others: self.alert_others,
            ignore_alert: match self.ignore_alert {
                Some(f) => Some(f@),
                None => None,
            },
        }
    }
}

impl RevengeGoalView {
    /// The checks before the tracking check: a new attack by an attacker that is still there,
    /// not a player under universal anger, not of an ignored type.
    pub open spec fn attack_counts(self, ctx: RevengeContext) -> bool {
        &&& ctx.last_attacked_time != self.last_attacked_time
        &&& ctx.last_attacker_id != 0
        &&& ctx.attacker_type is Some
        &&& !(ctx.attacker_type == Some(EntityKind::Player) && ctx.universal_anger)
        &&& !filter_matches(self.ignore_damage_from, ctx.attacker_type.unwrap())
    }

    /// Whether `candidate` answers the alert raised by `source`.
    pub open spec fn answers_alert(self, source: AlertSource, candidate: AlertCandidate) -> bool {
        &&& candidate.entity_id != source.entity_id
        &&& candidate.entity_type == source.entity_type
        &&& !candidate.is_spectator
        &&& candidate.is_mob
        &&& !candidate.has_target
        &&& !(source.tamable && source.owner != candidate.owner)
        &&& !candidate.allied_to_attacker
        &&& !filter_matches(self.ignore_alert, candidate.entity_type)
    }

    /// The ids of the candidates that answer, in order.
    pub open spec fn alerted(self, source: AlertSource, candidates: Seq<AlertCandidate>) -> Seq<
        EntityId,
    >
        decreases candidates.len(),
    {
        if candidates.len() == 0 {
            Seq::empty()
        } else {
            let earlier = self.alerted(source, candidates.drop_last());
            if self.answers_alert(source, candidates.last()) {
                earlier.push(candidates.last().entity_id)
            } else {
                earlier
            }
        }
    }
}

impl RevengeGoal {
    pub fn new(check_visibility: bool) -> (r: Self)
        ensures
            r@.track == fresh_track_view(check_visibility, false),
            r@.target is None,
            r@.last_attacked_time == 0,
            r@.ignore_damage_from is None,
            !r@.alert_others,
            r@.ignore_alert is None,
    {
        RevengeGoal {
            track_target_goal: TrackTargetGoal::with_default(check_visibility),
            target: None,
            last_attacked_time: 0,
            ignore_damage_from: None,
            alert_others: false,
            ignore_alert: None,
        }
    }

    /// Attacks by entities of the filter's types are not avenged.
    pub fn ignoring(self, filter: EntityTypeFilter) -> (r: Self)
        ensures
            r@ == (RevengeGoalView { ignore_damage_from: Some(filter@), ..self@ }),
    {
        let mut goal = self;
        goal.ignore_damage_from = Some(filter);
        goal
    }

    /// Nearby mobs of the same type join in.
    pub fn alerting_others(self) -> (r: Self)
        ensures
            r@ == (RevengeGoalView { alert_others: true, ..self@ }),
    {
        let mut goal = self;
        goal.alert_others = true;
        goal
    }

    /// Nearby mobs of the same type join in, except those of the filter's types.
    pub fn alerting_others_except(self, filter: EntityTypeFilter) -> (r: Self)
        ensures
            r@ == (RevengeGoalView { alert_others: true, ignore_alert: Some(filter@), ..self@ }),
    {
        let mut goal = self;
        goal.alert_others = true;
        goal.ignore_alert = Some(filter);
        goal
    }

    /// Whether `start` alerts other mobs.
    pub fn alerts_others(&self) -> (r: bool)
        ensures
            r == self@.alert_others,
    {
        self.alert_others
    }

    /// The mobs among `candidates` (the entities around the mob) that take `attacker` as target.
    pub fn alert_others(&self, source: &AlertSource, candidates: &Vec<AlertCandidate>) -> (r: Vec<
        EntityId,
    >)
        ensures
            r@ == self@.alerted(*source, candidates@),
    {
        let mut alerted: Vec<EntityId> = Vec::new();
        let mut i: usize = 0;
        while i < candidates.len()
            invariant
                0 <= i <= candidates@.len(),
                alerted@ == self@.alerted(*source, candidates@.take(i as int)),
            decreases candidates@.len() - i,
        {
            let c = &candidates[i];
            assert(candidates@.take(i + 1).drop_last() == candidates@.take(i as int));
            assert(candidates@.take(i + 1).last() == candidates@[i as int]);
            let answers = c.entity_id != source.entity_id && c.entity_type == source.entity_type
                && !c.is_spectator && c.is_mob && !c.has_target && !(source.tamable
                && source.owner != c.owner) && !c.allied_to_attacker
                && !optional_filter_matches(&self.ignore_alert, c.entity_type);
            if answers {
                alerted.push(c.entity_id);
            }
            i += 1;
        }
        assert(candidates@.take(candidates@.len() as int) == candidates@);
        alerted
    }

    pub fn can_start(&mut self, ctx: &RevengeContext) -> (r: bool)
        ensures
            !old(self)@.attack_counts(*ctx) ==> !r && final(self)@ == old(self)@,
            old(self)@.attack_counts(*ctx) ==> {
                &&& track_outcome(
                    old(self)@.track,
                    Some(ctx.last_attacker_id),
                    ctx.attacker_passes,
                    r,
                    final(self)@.track,
                )
                &&& final(self)@ == (RevengeGoalView {
                    track: final(self)@.track,
                    target: if r {
                        Some(ctx.last_attacker_id)
                    } else {
                        old(self)@.target
                    },
                    ..old(self)@
                })
            },
    {
        if ctx.last_attacked_time == self.last_attacked_time {
            return false;
        }
        if ctx.last_attacker_id == 0 {
            return false;
        }
        let attacker_type = match ctx.attacker_type {
            Some(t) => t,
            None => {
                return false;
            },
        };
        // Universal anger is handled by its own goal instead.
        if attacker_type == EntityKind::Player && ctx.universal_anger {
            return false;
        }
        if optional_filter_matches(&self.ignore_damage_from, attacker_type) {
            return false;
        }
        if !self.track_target_goal.can_track(Some(ctx.last_attacker_id), ctx.attacker_passes) {
            return false;
        }
        self.target = Some(ctx.last_attacker_id);
        true
    }

    pub fn should_continue(&mut self, ctx: &TrackContext) -> (r: Option<EntityId>)
        requires
            old(self)@.track.check_visibility ==> old(self)@.track.can_count_unseen(),
        ensures
            final(self)@ == (RevengeGoalView { track: final(self)@.track, ..old(self)@ }),
            continue_outcome(old(self)@.track, *ctx, r, final(self)@.track),
    {
        self.track_target_goal.should_continue(ctx)
    }

    /// Sets the target, remembers the attack, and raises the alert among `candidates` when the
    /// goal alerts others.
    pub fn start(
        &mut self,
        last_attacked_time: i32,
        source: &AlertSource,
        candidates: &Vec<AlertCandidate>,
    ) -> (r: RevengeStart)
        ensures
            r.target == old(self)@.target,
            r.alerted@ == (if old(self)@.alert_others && old(self)@.target is Some {
                old(self)@.alerted(*source, candidates@)
            } else {
                Seq::empty()
            }),
            final(self)@ == (RevengeGoalView {
                track: TrackTargetGoalView {
                    target_mob: old(self)@.target,
                    max_time_without_visibility: REVENGE_MEMORY_TICKS,
                    ..old(self)@.track
                }.restarted(),
                last_attacked_time,
                ..old(self)@
            }),
    {
        let alerted = if self.alert_others && self.target.is_some() {
            self.alert_others(source, candidates)
        } else {
            Vec::new()
        };
        self.track_target_goal.set_target_mob(self.target);
        self.last_attacked_time = last_attacked_time;
        self.track_target_goal.set_max_time_without_visibility(REVENGE_MEMORY_TICKS);
        self.track_target_goal.start();
        RevengeStart { target: self.target, alerted }
    }

    /// Forgets the target; the mob's own target is cleared with it.
    pub fn stop(&mut self)
        ensures
            final(self)@ == (RevengeGoalView {
                track: TrackTargetGoalView { target_mob: None, ..old(self)@.track },
                target: None,
                ..old(self)@
            }),
    {
        self.target = None;
        self.track_target_goal.stop();
    }

    pub fn controls(&self) -> (r: Controls)
        ensures
            r == (Controls { movement: false, look: false, jump: false, target: true }),
    {
        self.track_target_goal.controls()
    }
}

/// Each attack is avenged once: once `start` has recorded an attack's time, a `can_start` on
/// the same attack record does not start the goal again.
pub proof fn lemma_attack_avenged_once(v: RevengeGoalView, ctx: RevengeContext)
    requires
        v.last_attacked_time == ctx.last_attacked_time,
    ensures
        !v.attack_counts(ctx),
{
}

} // verus!
