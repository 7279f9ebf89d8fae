//! Goals: small state machines a mob runs while a condition holds.
use vstd::prelude::*;

pub mod avoid_entity;
pub mod creeper_ignite;
pub mod eat_grass;
pub mod escape_danger;
pub mod go_to_wanted_item;
pub mod move_towards_restriction;
pub mod owner_hurt_target;
pub mod revenge;
pub mod run_around_like_crazy;
pub mod tempt;
pub mod track_target;
pub mod trade_with_player;
pub mod wander_around;
pub mod water_avoiding_random_flying;

verus! {

/// `ceil(server_ticks / 2)`: goals that do not run every tick are only ticked every other
/// server tick, so their durations are halved, rounding up.
pub open spec fn goal_ticks(server_ticks: int) -> int {
    (server_ticks + 1) / 2
}

/// Converts a duration in server ticks into goal ticks, rounding up.
pub fn to_goal_ticks(server_ticks: i32) -> (r: i32)
    ensures
        r == goal_ticks(server_ticks as int),
{
    if server_ticks >= 0 {
        let n: u32 = server_ticks as u32 + 1;
        (n / 2) as i32
    } else {
        let n: u64 = (0i64 - server_ticks as i64) as u64;
        let half: i64 = (n / 2) as i64;
        (0i64 - half) as i32
    }
}

/// The tick count a goal uses for a duration: unchanged for goals that run every tick,
/// halved (rounding up) for the others.
pub fn get_tick_count(runs_every_tick: bool, ticks: i32) -> (r: i32)
    ensures
        r == (if runs_every_tick { ticks as int } else { goal_ticks(ticks as int) }),
{
    if runs_every_tick {
        ticks
    } else {
        to_goal_ticks(ticks)
    }
}

/// The controls a goal claims while it runs; two goals claiming the same control exclude each
/// other.
#[derive(Clone, Copy, Debug, PartialEq, Eq, Structural)]
pub struct Controls {
    pub movement: bool,
    pub look: bool,
    pub jump: bool,
    pub target: bool,
}

impl Controls {
    pub fn none() -> (r: Controls)
        ensures
            r == (Controls { movement: false, look: false, jump: false, target: false }),
    {
        Controls { movement: false, look: false, jump: false, target: false }
    }

    pub fn movement() -> (r: Controls)
        ensures
            r == (Controls { movement: true, look: false, jump: false, target: false }),
    {
        Controls { movement: true, look: false, jump: false, target: false }
    }

    pub fn target() -> (r: Controls)
        ensures
            r == (Controls { movement: false, look: false, jump: false, target: true }),
    {
        Controls { movement: false, look: false, jump: false, target: true }
    }

    /// The union of two sets of controls.
    pub fn union(self, other: Controls) -> (r: Controls)
        ensures
            r == (Controls {
                movement: self.movement || other.movement,
                look: self.look || other.look,
                jump: self.jump || other.jump,
                target: self.target || other.target,
            }),
    {
        Controls {
            movement: self.movement || other.movement,
            look: self.look || other.look,
            jump: self.jump || other.jump,
            target: self.target || other.target,
        }
    }
}

} // verus!
