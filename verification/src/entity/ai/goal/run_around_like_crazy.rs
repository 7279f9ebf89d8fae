//! An untamed horse with a rider bucks around until it is tamed or the rider gets off.
use vstd::prelude::*;

use super::Controls;

verus! {

/// How far the bucking goes, horizontally and vertically.
pub const HORIZONTAL_RANGE: i32 = 5;

pub const VERTICAL_RANGE: i32 = 4;

/// Starts only untamed with a rider, when `search` finds a position.
pub fn can_start<F: FnOnce() -> bool>(tamed: bool, has_passengers: bool, search: F) -> (r: bool)
    requires
        search.requires(()),
    ensures
        tamed || !has_passengers ==> !r,
        !tamed && has_passengers ==> search.ensures((), r),
{
    if tamed || !has_passengers {
        return false;
    }
    search()
}

/// Goes on while untamed, moving, and ridden.
pub fn should_continue(tamed: bool, navigator_idle: bool, has_passengers: bool) -> (r: bool)
    ensures
        r == (!tamed && !navigator_idle && has_passengers),
{
    !tamed && !navigator_idle && has_passengers
}

pub fn controls() -> (r: Controls)
    ensures
        r == (Controls { movement: true, look: false, jump: false, target: false }),
{
    Controls::movement()
}

} // verus!
