//! While a player is trading the merchant stands still; looking at them is a separate goal.
use vstd::prelude::*;

use super::Controls;

verus! {

/// What `can_start` reads of the merchant and its trading partner.
#[derive(Clone, Copy, Debug, PartialEq, Eq, Structural)]
pub struct TradeContext {
    pub alive: bool,
    pub touching_water: bool,
    pub on_ground: bool,
    pub velocity_dirty: bool,
    /// For the player trading with the merchant, if any: whether it is within 4 blocks.
    pub trading_player_close: Option<bool>,
}

pub struct TradeWithPlayerGoal;

impl TradeWithPlayerGoal {
    pub fn new() -> (r: Self) {
        TradeWithPlayerGoal
    }

    /// A merchant on dry ground, not being pushed, with a trading partner close by.
    pub fn can_start(&self, ctx: &TradeContext) -> (r: bool)
        ensures
            r == (ctx.alive && !ctx.touching_water && ctx.on_ground && !ctx.velocity_dirty
                && ctx.trading_player_close == Some(true)),
    {
        if !ctx.alive || ctx.touching_water || !ctx.on_ground || ctx.velocity_dirty {
            return false;
        }
        match ctx.trading_player_close {
            Some(close) => close,
            None => false,
        }
    }

    pub fn controls(&self) -> (r: Controls)
        ensures
            r == (Controls { movement: true, look: false, jump: true, target: false }),
    {
        Controls { movement: true, look: false, jump: true, target: false }
    }
}

} // verus!
