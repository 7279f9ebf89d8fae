//! A mob flees entities of a type it fears: slowly, and fast when the threat is close.
use vstd::prelude::*;

use super::Controls;

verus! {

/// How far a flight goes, horizontally and vertically.
pub const HORIZONTAL_RANGE: i32 = 16;

pub const VERTICAL_RANGE: i32 = 7;

/// Which of the goal's two speeds the mob flees at.
#[derive(Clone, Copy, Debug, PartialEq, Eq, Structural)]
pub enum FleeSpeed {
    Slow,
    Fast,
}

/// Starts when a threat is found and `find_flee_pos` finds a position away from it that puts
/// more distance between them.
pub fn can_start<F: FnOnce() -> bool>(threat_found: bool, find_flee_pos: F) -> (r: bool)
    requires
        find_flee_pos.requires(()),
    ensures
        !threat_found ==> !r,
        threat_found ==> find_flee_pos.ensures((), r),
{
    if !threat_found {
        return false;
    }
    find_flee_pos()
}

/// Goes on while the path is followed.
pub fn should_continue(navigator_idle: bool) -> (r: bool)
    ensures
        r == !navigator_idle,
{
    !navigator_idle
}

/// The speed for this tick: fast while the threat is within 7 blocks; nothing changes
/// without a threat.
pub fn flee_speed(has_threat: bool, threat_close: bool) -> (r: Option<FleeSpeed>)
    ensures
        r == (if !has_threat {
            None
        } else if threat_close {
            Some(FleeSpeed::Fast)
        } else {
            Some(FleeSpeed::Slow)
        }),
{
    if !has_threat {
        None
    } else if threat_close {
        Some(FleeSpeed::Fast)
    } else {
        Some(FleeSpeed::Slow)
    }
}

pub fn controls() -> (r: Controls)
    ensures
        r == (Controls { movement: true, look: false, jump: false, target: false }),
{
    Controls::movement()
}

} // verus!
