//! A mob without a rider now and then walks to a random spot nearby.
use vstd::prelude::*;

use super::{Controls, goal_ticks, to_goal_ticks};
use crate::random::random_below;

verus! {

/// On average a wander starts once in this many server ticks.
pub const DEFAULT_INTERVAL: i32 = 120;

/// When the wander goal tries to start: on average once per interval, or at once when
/// triggered.
pub struct WanderSchedule {
    pub interval: i32,
    pub force_trigger: bool,
}

impl WanderSchedule {
    pub fn new() -> (r: Self)
        ensures
            r.interval == DEFAULT_INTERVAL && !r.force_trigger,
    {
        Self::with_interval(DEFAULT_INTERVAL)
    }

    pub fn with_interval(interval: i32) -> (r: Self)
        ensures
            r.interval == interval && !r.force_trigger,
    {
        WanderSchedule { interval, force_trigger: false }
    }

    /// Run once on the next check, ignoring the interval.
    pub fn trigger(&mut self)
        ensures
            final(self).force_trigger && final(self).interval == old(self).interval,
    {
        self.force_trigger = true;
    }

    pub fn set_interval(&mut self, interval: i32)
        ensures
            final(self).interval == interval && final(self).force_trigger == old(self).force_trigger,
    {
        self.interval = interval;
    }

    /// The check with the roll drawn: never with a rider; unless triggered, only on a roll of
    /// 0; then `search` looks for a position, and finding one starts the wander and ends a
    /// trigger.
    pub fn can_start_with_roll<F: FnOnce() -> bool>(&mut self, has_passengers: bool, roll: i32, search: F) -> (r: bool)
        requires
            search.requires(()),
        ensures
            has_passengers || (!old(self).force_trigger && roll != 0) ==> !r && final(self).interval
                == old(self).interval && final(self).force_trigger == old(self).force_trigger,
            !(has_passengers || (!old(self).force_trigger && roll != 0)) ==> search.ensures((), r)
                && final(self).interval == old(self).interval && final(self).force_trigger == (
            old(self).force_trigger && !r),
    {
        if has_passengers {
            return false;
        }
        if !self.force_trigger && roll != 0 {
            return false;
        }
        let found = search();
        if !found {
            return false;
        }
        self.force_trigger = false;
        true
    }

    /// The check: the roll is drawn from `0..to_goal_ticks(interval)` when needed.
    pub fn can_start<F: FnOnce() -> bool>(&mut self, has_passengers: bool, search: F) -> (r: bool)
        requires
            search.requires(()),
            old(self).force_trigger || goal_ticks(old(self).interval as int) > 0,
        ensures
            r ==> !has_passengers && search.ensures((), true) && !final(self).force_trigger,
            has_passengers ==> !r,
            final(self).interval == old(self).interval,
            !r ==> final(self).force_trigger == old(self).force_trigger,
            !has_passengers && old(self).force_trigger ==> search.ensures((), r),
    {
        let roll = if !has_passengers && !self.force_trigger {
            random_below(to_goal_ticks(self.interval))
        } else {
            0
        };
        self.can_start_with_roll(has_passengers, roll, search)
    }

    /// Goes on while the path is followed and nobody rides the mob.
    pub fn should_continue(navigator_idle: bool, has_passengers: bool) -> (r: bool)
        ensures
            r == (!navigator_idle && !has_passengers),
    {
        !navigator_idle && !has_passengers
    }

    pub fn controls(&self) -> (r: Controls)
        ensures
            r == (Controls { movement: true, look: false, jump: false, target: false }),
    {
        Controls::movement()
    }
}

} // verus!
