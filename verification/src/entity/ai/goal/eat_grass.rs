//! A grazing mob now and then eats the grass it stands on, or the grass block under it.
use vstd::prelude::*;

use super::{Controls, get_tick_count};
use crate::random::random_below;

verus! {

/// How long eating takes, in ticks.
pub const MAX_TIMER: i32 = 40;

/// An adult starts eating on average once in this many ticks.
pub const MAX_INTERVAL: i32 = 1000;

/// A baby starts eating on average once in this many ticks.
pub const BABY_INTERVAL: i32 = 50;

/// The timer value at which the grass is eaten.
pub const EAT_AT: i32 = 4;

/// What the goal reads of the world around the mob.
#[derive(Clone, Copy, Debug, PartialEq, Eq, Structural)]
pub struct GrassContext {
    pub is_baby: bool,
    /// The block at the mob's feet is edible for sheep (short grass and the like).
    pub edible_at_feet: bool,
    /// The block under the mob is a grass block.
    pub grass_block_below: bool,
    /// The `mob_griefing` game rule.
    pub mob_griefing: bool,
}

/// What a tick does to the world.
#[derive(Clone, Copy, Debug, PartialEq, Eq, Structural)]
pub enum EatAction {
    Nothing,
    /// Eats the plant at the mob's feet; the block breaks, without drops, when `break_block`.
    EatPlant { break_block: bool },
    /// Eats the grass block under the mob; it turns to dirt, with particles, when
    /// `turn_to_dirt`.
    EatGrassBlock { turn_to_dirt: bool },
}

/// The timer after one tick.
pub open spec fn next_timer(timer: int) -> int {
    if timer - 1 > 0 {
        timer - 1
    } else {
        0
    }
}

/// What a tick that leaves the timer at `timer` does.
pub open spec fn eat_action(timer: int, ctx: GrassContext) -> EatAction {
    if timer != EAT_AT {
        EatAction::Nothing
    } else if ctx.edible_at_feet {
        EatAction::EatPlant { break_block: ctx.mob_griefing }
    } else if ctx.grass_block_below {
        EatAction::EatGrassBlock { turn_to_dirt: ctx.mob_griefing }
    } else {
        EatAction::Nothing
    }
}

pub struct EatGrassGoal {
    timer: i32,
}

impl Default for EatGrassGoal {
    fn default() -> (r: Self)
        ensures
            r.timer_spec() == 0,
    {
        EatGrassGoal { timer: 0 }
    }
}

impl EatGrassGoal {
    #[verifier::type_invariant]
    spec fn timer_in_range(self) -> bool {
        0 <= self.timer <= MAX_TIMER
    }

    pub closed spec fn timer_spec(&self) -> int {
        self.timer as int
    }

    pub fn get_timer(&self) -> (r: i32)
        ensures
            r == self.timer_spec(),
            0 <= r <= MAX_TIMER,
    {
        proof {
            use_type_invariant(self);
        }
        self.timer
    }

    /// The average wait between two meals: `MAX_INTERVAL` ticks, `BABY_INTERVAL` for a baby.
    pub fn interval(&self, is_baby: bool) -> (r: i32)
        ensures
            r == (if is_baby {
                BABY_INTERVAL
            } else {
                MAX_INTERVAL
            }),
    {
        get_tick_count(
            self.should_run_every_tick(),
            if is_baby {
                BABY_INTERVAL
            } else {
                MAX_INTERVAL
            },
        )
    }

    /// Starts on a roll of 0 out of `interval(is_baby)`, with something to eat.
    pub fn can_start_with_roll(&self, roll: i32, ctx: &GrassContext) -> (r: bool)
        ensures
            r == (roll == 0 && (ctx.edible_at_feet || ctx.grass_block_below)),
    {
        if roll != 0 {
            return false;
        }
        if ctx.edible_at_feet {
            return true;
        }
        ctx.grass_block_below
    }

    /// Rolls the dice, then checks for something to eat.
    pub fn can_start(&self, ctx: &GrassContext) -> (r: bool)
        ensures
            r ==> ctx.edible_at_feet || ctx.grass_block_below,
    {
        let roll = random_below(self.interval(ctx.is_baby));
        self.can_start_with_roll(roll, ctx)
    }

    pub fn should_continue(&self) -> (r: bool)
        ensures
            r == (self.timer_spec() > 0),
    {
        self.timer > 0
    }

    /// Starts eating; the mob stops walking and shows the eating animation.
    pub fn start(&mut self)
        ensures
            final(self).timer_spec() == MAX_TIMER,
    {
        self.timer = get_tick_count(self.should_run_every_tick(), MAX_TIMER);
    }

    pub fn tick(&mut self, ctx: &GrassContext) -> (r: EatAction)
        ensures
            final(self).timer_spec() == next_timer(old(self).timer_spec()),
            r == eat_action(final(self).timer_spec(), *ctx),
    {
        proof {
            use_type_invariant(&*self);
        }
        self.timer = if self.timer - 1 > 0 {
            self.timer - 1
        } else {
            0
        };
        if self.timer != get_tick_count(self.should_run_every_tick(), EAT_AT) {
            return EatAction::Nothing;
        }
        if ctx.edible_at_feet {
            EatAction::EatPlant { break_block: ctx.mob_griefing }
        } else if ctx.grass_block_below {
            EatAction::EatGrassBlock { turn_to_dirt: ctx.mob_griefing }
        } else {
            EatAction::Nothing
        }
    }

    pub fn stop(&mut self)
        ensures
            final(self).timer_spec() == 0,
    {
        self.timer = 0;
    }

    pub fn should_run_every_tick(&self) -> (r: bool)
        ensures
            r,
    {
        true
    }

    pub fn controls(&self) -> (r: Controls)
        ensures
            r == (Controls { movement: true, look: true, jump: true, target: false }),
    {
        Controls { movement: true, look: true, jump: true, target: false }
    }
}

/// The timer `k` ticks after `start`.
pub open spec fn timer_after_ticks(k: nat) -> int
    decreases k,
{
    if k == 0 {
        MAX_TIMER as int
    } else {
        next_timer(timer_after_ticks((k - 1) as nat))
    }
}

/// One meal per run: `k` ticks after `start` the timer is `max(40 - k, 0)`, so the only tick
/// that can eat is the 36th.
pub proof fn lemma_eats_once_per_run(k: nat)
    ensures
        timer_after_ticks(k) == (if k < MAX_TIMER {
            MAX_TIMER - k
        } else {
            0
        }),
        timer_after_ticks(k) == EAT_AT <==> k == MAX_TIMER - EAT_AT,
    decreases k,
{
    if k > 0 {
        lemma_eats_once_per_run((k - 1) as nat);
    }
}

} // verus!
