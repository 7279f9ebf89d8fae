//! The common part of the targeting goals: whether a target can be followed, and how long an
//! unseen target is remembered.
use vstd::prelude::*;

use super::{Controls, goal_ticks, to_goal_ticks};
use crate::entity::EntityId;
use crate::random::random_below;

verus! {

pub const UNSET: i32 = 0;

pub const CAN_TRACK: i32 = 1;

pub const CANNOT_TRACK: i32 = 2;

/// How long a target that is out of sight is remembered, in server ticks, by default.
pub const DEFAULT_MAX_TIME_WITHOUT_VISIBILITY: i32 = 60;

/// The cooldowns a navigation check can leave behind: `goal_ticks(10 + roll)` for a roll in
/// `0..5`, that is 5, 6 or 7.
pub open spec fn is_navigation_cooldown(cooldown: int) -> bool {
    5 <= cooldown <= 7
}

/// The state of a goal created by `new(check_visibility, check_can_navigate)`.
pub open spec fn fresh_track_view(check_visibility: bool, check_can_navigate: bool) -> TrackTargetGoalView {
    TrackTargetGoalView {
        check_visibility,
        check_can_navigate,
        can_navigate_flag: UNSET,
        check_can_navigate_cooldown: 0,
        time_without_visibility: 0,
        max_time_without_visibility: DEFAULT_MAX_TIME_WITHOUT_VISIBILITY,
        target_mob: None,
    }
}

/// `should_continue` may run in state `before` on `context`, answer `answer` (the target the
/// mob keeps, `None` when the goal ends) and leave state `after`. The target followed is the
/// mob's own, or else the fallback one.
pub open spec fn continue_outcome(
    before: TrackTargetGoalView,
    context: TrackContext,
    answer: Option<EntityId>,
    after: TrackTargetGoalView,
) -> bool {
    let followed = match context.mob_target {
        Some(t) => Some(t),
        None => before.target_mob,
    };
    let kept = context.target_is_living && context.can_attack && !context.allied
        && context.within_follow_range;
    if followed is None || !kept {
        answer is None && after == before
    } else if before.check_visibility {
        &&& after == before.after_sight(context.has_line_of_sight)
        &&& answer == (if before.remembers(context.has_line_of_sight) {
            followed
        } else {
            None
        })
    } else {
        answer == followed && after == before
    }
}

/// `can_track` may run in state `before` and answer `answer`, leaving state `after`.
pub open spec fn track_outcome(
    before: TrackTargetGoalView,
    target: Option<EntityId>,
    target_passes: bool,
    answer: bool,
    after: TrackTargetGoalView,
) -> bool {
    if target is None || !target_passes {
        !answer && after == before
    } else if !before.check_can_navigate {
        answer && after == before
    } else {
        let flag = before.flag_after_cooldown();
        if flag == UNSET {
            &&& !answer
            &&& after == (TrackTargetGoalView {
                can_navigate_flag: CANNOT_TRACK,
                check_can_navigate_cooldown: after.check_can_navigate_cooldown,
                ..before
            })
            &&& is_navigation_cooldown(after.check_can_navigate_cooldown as int)
        } else {
            &&& answer == (flag != CANNOT_TRACK)
            &&& after == (TrackTargetGoalView {
                can_navigate_flag: flag,
                check_can_navigate_cooldown: (before.check_can_navigate_cooldown - 1) as i32,
                ..before
            })
        }
    }
}

pub struct TrackTargetGoal {
    check_visibility: bool,
    check_can_navigate: bool,
    can_navigate_flag: i32,
    check_can_navigate_cooldown: i32,
    time_without_visibility: i32,
    max_time_without_visibility: i32,
    /// Fallback target, used while the mob's own target is cleared.
    target_mob: Option<EntityId>,
}

/// The state of a [`TrackTargetGoal`] as its contracts speak of it.
pub struct TrackTargetGoalView {
    pub check_visibility: bool,
    pub check_can_navigate: bool,
    pub can_navigate_flag: i32,
    pub check_can_navigate_cooldown: i32,
    pub time_without_visibility: i32,
    pub max_time_without_visibility: i32,
    pub target_mob: Option<EntityId>,
}

impl View for TrackTargetGoal {
    type V = TrackTargetGoalView;

    closed spec fn view(&self) -> TrackTargetGoalView {
        TrackTargetGoalView {
            check_visibility: self.check_visibility,
            check_can_navigate: self.check_can_navigate,
            can_navigate_flag: self.can_navigate_flag,
            check_can_navigate_cooldown: self.check_can_navigate_cooldown,
            time_without_visibility: self.time_without_visibility,
            max_time_without_visibility: self.max_time_without_visibility,
            target_mob: self.target_mob,
        }
    }
}

impl TrackTargetGoalView {
    /// The state right after `start`: navigation verdict and memory forgotten.
    pub open spec fn restarted(self) -> TrackTargetGoalView {
        TrackTargetGoalView {
            can_navigate_flag: UNSET,
            check_can_navigate_cooldown: 0,
            time_without_visibility: 0,
            ..self
        }
    }

    /// What `remembers_visible_target` answers in this state.
    pub open spec fn remembers(self, has_line_of_sight: bool) -> bool {
        has_line_of_sight || self.time_without_visibility + 1 <= goal_ticks(
            self.max_time_without_visibility as int,
        )
    }

    /// The state after `remembers_visible_target`.
    pub open spec fn after_sight(self, has_line_of_sight: bool) -> TrackTargetGoalView {
        TrackTargetGoalView {
            time_without_visibility: if has_line_of_sight {
                0
            } else {
                (self.time_without_visibility + 1) as i32
            },
            ..self
        }
    }

    /// `remembers_visible_target` can run in this state without overflow.
    pub open spec fn can_count_unseen(self) -> bool {
        self.time_without_visibility < i32::MAX
    }

    /// The navigation verdict `can_track` works with, once the cooldown has ticked down.
    pub open spec fn flag_after_cooldown(self) -> i32 {
        if self.check_can_navigate_cooldown - 1 <= 0 {
            UNSET
        } else {
            self.can_navigate_flag
        }
    }
}

impl TrackTargetGoal {
    /// The navigation cooldown stays within the longest one a check sets, and the verdict is
    /// one of the three known ones.
    #[verifier::type_invariant]
    spec fn navigation_state_known(self) -> bool {
        &&& 0 <= self.check_can_navigate_cooldown <= 7
        &&& (self.can_navigate_flag == UNSET || self.can_navigate_flag == CAN_TRACK
            || self.can_navigate_flag == CANNOT_TRACK)
    }

    pub fn new(check_visibility: bool, check_can_navigate: bool) -> (r: Self)
        ensures
            r@ == fresh_track_view(check_visibility, check_can_navigate),
    {
        TrackTargetGoal {
            check_visibility,
            check_can_navigate,
            can_navigate_flag: UNSET,
            check_can_navigate_cooldown: 0,
            time_without_visibility: 0,
            max_time_without_visibility: DEFAULT_MAX_TIME_WITHOUT_VISIBILITY,
            target_mob: None,
        }
    }

    pub fn with_default(check_visibility: bool) -> (r: Self)
        ensures
            r@ == fresh_track_view(check_visibility, false),
    {
        Self::new(check_visibility, false)
    }

    pub fn set_unseen_memory_ticks(self, ticks: i32) -> (r: Self)
        ensures
            r@ == (TrackTargetGoalView { max_time_without_visibility: ticks, ..self@ }),
    {
        proof {
            use_type_invariant(&self);
        }
        let mut goal = self;
        goal.max_time_without_visibility = ticks;
        goal
    }

    /// Sets how long an unseen target is remembered, in server ticks.
    pub fn set_max_time_without_visibility(&mut self, ticks: i32)
        ensures
            final(self)@ == (TrackTargetGoalView {
                max_time_without_visibility: ticks,
                ..old(self)@
            }),
    {
        proof {
            use_type_invariant(&*self);
        }
        self.max_time_without_visibility = ticks;
    }

    /// How long an unseen target is remembered, in server ticks.
    pub fn max_time_without_visibility(&self) -> (r: i32)
        ensures
            r == self@.max_time_without_visibility,
    {
        self.max_time_without_visibility
    }

    /// Set by goals that already know their target.
    pub fn set_target_mob(&mut self, target: Option<EntityId>)
        ensures
            final(self)@ == (TrackTargetGoalView { target_mob: target, ..old(self)@ }),
    {
        proof {
            use_type_invariant(&*self);
        }
        self.target_mob = target;
    }

    /// The fallback target.
    pub fn target_mob(&self) -> (r: Option<EntityId>)
        ensures
            r == self@.target_mob,
    {
        self.target_mob
    }

    /// How many ticks in a row the target has been out of sight.
    pub fn time_without_visibility(&self) -> (r: i32)
        ensures
            r == self@.time_without_visibility,
    {
        self.time_without_visibility
    }

    /// Paths are not computed yet, so no target counts as reachable; the check is not repeated
    /// before a random cooldown has run out.
    fn can_navigate_to_entity(&mut self) -> (r: bool)
        ensures
            !r,
            final(self)@ == (TrackTargetGoalView {
                check_can_navigate_cooldown: final(self)@.check_can_navigate_cooldown,
                ..old(self)@
            }),
            is_navigation_cooldown(final(self)@.check_can_navigate_cooldown as int),
    {
        proof {
            use_type_invariant(&*self);
        }
        let roll = random_below(5);
        self.check_can_navigate_cooldown = to_goal_ticks(10 + roll);
        assert(is_navigation_cooldown(self.check_can_navigate_cooldown as int));
        false
    }

    /// Whether an unseen target is still remembered: seeing it resets the memory, and it lasts
    /// `to_goal_ticks(max_time_without_visibility)` checks in a row without sight.
    pub fn remembers_visible_target(&mut self, has_line_of_sight: bool) -> (r: bool)
        requires
            old(self)@.can_count_unseen(),
        ensures
            r == old(self)@.remembers(has_line_of_sight),
            final(self)@ == old(self)@.after_sight(has_line_of_sight),
    {
        proof {
            use_type_invariant(&*self);
        }
        if has_line_of_sight {
            self.time_without_visibility = 0;
            true
        } else {
            self.time_without_visibility += 1;
            self.time_without_visibility <= to_goal_ticks(self.max_time_without_visibility)
        }
    }

    /// Targeting check goals run inside `can_start`. `target_passes` is the verdict of the
    /// goal's target predicate on `target`.
    pub fn can_track(&mut self, target: Option<EntityId>, target_passes: bool) -> (r: bool)
        ensures
            track_outcome(old(self)@, target, target_passes, r, final(self)@),
    {
        proof {
            use_type_invariant(&*self);
        }
        if target.is_none() || !target_passes {
            return false;
        }
        // The home range of the mob is not consulted.
        if self.check_can_navigate {
            let cooldown = self.check_can_navigate_cooldown - 1;
            if cooldown <= 0 {
                // The verdict is dropped and checked again below, which sets a new cooldown.
                self.can_navigate_flag = UNSET;
                self.check_can_navigate_cooldown = 0;
            } else {
                self.check_can_navigate_cooldown = cooldown;
            }
            if self.can_navigate_flag == UNSET {
                self.can_navigate_flag = if self.can_navigate_to_entity() {
                    CAN_TRACK
                } else {
                    CANNOT_TRACK
                };
            }
            if self.can_navigate_flag == CANNOT_TRACK {
                return false;
            }
        }
        true
    }

    /// One `should_continue` check. The facts in `context` are about the followed target, the
    /// mob's own target or else the fallback one. Returns the target the mob keeps, or `None`
    /// when the goal ends.
    pub fn should_continue(&mut self, context: &TrackContext) -> (r: Option<EntityId>)
        requires
            old(self)@.check_visibility ==> old(self)@.can_count_unseen(),
        ensures
            continue_outcome(old(self)@, *context, r, final(self)@),
    {
        proof {
            use_type_invariant(&*self);
        }
        let followed = match context.mob_target {
            Some(t) => Some(t),
            None => self.target_mob,
        };
        if followed.is_none() {
            return None;
        }
        if !context.target_is_living || !context.can_attack || context.allied
            || !context.within_follow_range {
            return None;
        }
        if self.check_visibility {
            if !self.remembers_visible_target(context.has_line_of_sight) {
                return None;
            }
        }
        followed
    }

    pub fn start(&mut self)
        ensures
            final(self)@ == old(self)@.restarted(),
    {
        proof {
            use_type_invariant(&*self);
        }
        self.can_navigate_flag = UNSET;
        self.check_can_navigate_cooldown = 0;
        self.time_without_visibility = 0;
    }

    /// Forgets the fallback target; the mob's own target is cleared with it.
    pub fn stop(&mut self)
        ensures
            final(self)@ == (TrackTargetGoalView { target_mob: None, ..old(self)@ }),
    {
        proof {
            use_type_invariant(&*self);
        }
        self.target_mob = None;
    }

    pub fn controls(&self) -> (r: Controls)
        ensures
            r == (Controls { movement: false, look: false, jump: false, target: true }),
    {
        Controls::target()
    }
}

/// What `should_continue` reads of the world about the followed target.
#[derive(Clone, Copy, Debug, PartialEq, Eq, Structural)]
pub struct TrackContext {
    /// The mob's own current target, if it has one.
    pub mob_target: Option<EntityId>,
    /// The followed entity is a living entity.
    pub target_is_living: bool,
    /// The mob may attack it.
    pub can_attack: bool,
    /// The mob is allied to it.
    pub allied: bool,
    /// It is within the mob's follow range attribute.
    pub within_follow_range: bool,
    /// The mob sees it.
    pub has_line_of_sight: bool,
}

/// The state after `k` checks in a row without sight.
pub open spec fn after_unseen(v: TrackTargetGoalView, k: nat) -> TrackTargetGoalView
    decreases k,
{
    if k == 0 {
        v
    } else {
        after_unseen(v, (k - 1) as nat).after_sight(false)
    }
}

/// Starting from a memory that was just reset, the target is still remembered at the
/// `k + 1`-th check in a row without sight exactly when `k + 1 <= to_goal_ticks(max)`: a target
/// out of sight is forgotten after `to_goal_ticks(max_time_without_visibility)` checks.
pub proof fn lemma_unseen_memory_window(v: TrackTargetGoalView, k: nat)
    requires
        v.time_without_visibility == 0,
        k < i32::MAX,
    ensures
        after_unseen(v, k).time_without_visibility == k,
        after_unseen(v, k).can_count_unseen(),
        after_unseen(v, k).max_time_without_visibility == v.max_time_without_visibility,
        after_unseen(v, k).remembers(false) <==> k + 1 <= goal_ticks(
            v.max_time_without_visibility as int,
        ),
    decreases k,
{
    if k > 0 {
        lemma_unseen_memory_window(v, (k - 1) as nat);
    }
}

/// Seeing the target always keeps it and resets the memory, whatever came before.
pub proof fn lemma_sight_resets_memory(v: TrackTargetGoalView)
    ensures
        v.remembers(true),
        v.after_sight(true).time_without_visibility == 0,
        v.after_sight(true) == (TrackTargetGoalView { time_without_visibility: 0, ..v }),
{
}

/// A target that is not a living entity, that the mob may not attack, that is allied to it,
/// or that is beyond its follow range is dropped at once: the check answers `None` and changes
/// nothing, whatever the other facts and the memory.
pub proof fn lemma_unfit_target_dropped(
    before: TrackTargetGoalView,
    context: TrackContext,
    answer: Option<EntityId>,
    after: TrackTargetGoalView,
)
    requires
        continue_outcome(before, context, answer, after),
        !context.target_is_living || !context.can_attack || context.allied
            || !context.within_follow_range,
    ensures
        answer is None,
        after == before,
{
}

/// A fit target is kept as long as it is remembered: without a visibility check it is always
/// kept, and the kept target is the mob's own one, or else the fallback one.
pub proof fn lemma_fit_target_kept(
    before: TrackTargetGoalView,
    context: TrackContext,
    answer: Option<EntityId>,
    after: TrackTargetGoalView,
)
    requires
        continue_outcome(before, context, answer, after),
        context.target_is_living,
        context.can_attack,
        !context.allied,
        context.within_follow_range,
        !before.check_visibility || context.has_line_of_sight,
    ensures
        answer == (if context.mob_target is Some {
            context.mob_target
        } else {
            before.target_mob
        }),
{
}

} // verus!
