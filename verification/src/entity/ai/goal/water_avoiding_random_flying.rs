//! A flying mob now and then flies to a spot to hover over, or else into open air or water.
use vstd::prelude::*;

use super::{Controls, goal_ticks, to_goal_ticks};
use crate::random::random_below;

verus! {

/// On average a flight starts once in this many server ticks.
pub const FLIGHT_INTERVAL: i32 = 120;

/// How often the flying goal starts: once in `chance` checks on average.
pub struct RandomFlightChance {
    pub chance: i32,
}

impl RandomFlightChance {
    pub fn new() -> (r: Self)
        ensures
            r.chance == goal_ticks(FLIGHT_INTERVAL as int),
    {
        RandomFlightChance { chance: to_goal_ticks(FLIGHT_INTERVAL) }
    }

    /// Never with a rider; on a roll of 0, `search` looks for a position and finding one starts
    /// the flight.
    pub fn can_start_with_roll<F: FnOnce() -> bool>(&self, has_passengers: bool, roll: i32, search: F) -> (r: bool)
        requires
            search.requires(()),
        ensures
            has_passengers || roll != 0 ==> !r,
            !has_passengers && roll == 0 ==> search.ensures((), r),
    {
        if has_passengers {
            return false;
        }
        if roll != 0 {
            return false;
        }
        search()
    }

    /// The check, with the roll drawn from `0..chance`.
    pub fn can_start<F: FnOnce() -> bool>(&self, has_passengers: bool, search: F) -> (r: bool)
        requires
            search.requires(()),
            self.chance > 0,
        ensures
            r ==> !has_passengers && search.ensures((), true),
    {
        let roll = if has_passengers {
            0
        } else {
            random_below(self.chance)
        };
        self.can_start_with_roll(has_passengers, roll, search)
    }

    /// Goes on while the path is followed and nobody rides the mob.
    pub fn should_continue(navigator_idle: bool, has_passengers: bool) -> (r: bool)
        ensures
            r == (!navigator_idle && !has_passengers),
    {
        !navigator_idle && !has_passengers
    }

    pub fn controls(&self) -> (r: Controls)
        ensures
            r == (Controls { movement: true, look: false, jump: false, target: false }),
    {
        Controls::movement()
    }
}

} // verus!
