//! A mob that strayed from its home walks back toward it.
use vstd::prelude::*;

use super::Controls;

verus! {

/// How far one step back home goes, horizontally and vertically.
pub const HORIZONTAL_RANGE: i32 = 16;

pub const VERTICAL_RANGE: i32 = 7;

/// Starts when the mob is outside its home range and `search` finds a position toward home.
pub fn can_start<F: FnOnce() -> bool>(in_home_range: bool, search: F) -> (r: bool)
    requires
        search.requires(()),
    ensures
        in_home_range ==> !r,
        !in_home_range ==> search.ensures((), r),
{
    if in_home_range {
        return false;
    }
    search()
}

/// Goes on while the path is followed.
pub fn should_continue(navigator_idle: bool) -> (r: bool)
    ensures
        r == !navigator_idle,
{
    !navigator_idle
}

pub fn controls() -> (r: Controls)
    ensures
        r == (Controls { movement: true, look: false, jump: false, target: false }),
{
    Controls::movement()
}

} // verus!
