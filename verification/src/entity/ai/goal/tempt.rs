//! A mob follows a player holding food it likes, unless the player's moves scare it off, and
//! waits a while before following again.
use vstd::prelude::*;

use super::{Controls, goal_ticks, to_goal_ticks};
use crate::item::{ItemKind, ItemStack};

verus! {

/// The pause before following again, in server ticks.
pub const COOLDOWN_TICKS: i32 = 100;

/// The following state: the pause left before looking for a player, and whether it follows.
pub struct TemptState {
    pub cooldown: i32,
    pub running: bool,
}

/// `stack` is one of `tempt_items`, with at least one item.
pub open spec fn tempts(tempt_items: Seq<ItemKind>, stack: ItemStack) -> bool {
    stack.item_count > 0 && tempt_items.contains(stack.item)
}

impl TemptState {
    pub fn new() -> (r: Self)
        ensures
            r.cooldown == 0 && !r.running,
    {
        TemptState { cooldown: 0, running: false }
    }

    pub fn is_running(&self) -> (r: bool)
        ensures
            r == self.running,
    {
        self.running
    }

    pub fn is_tempt_item(tempt_items: &Vec<ItemKind>, stack: &ItemStack) -> (r: bool)
        ensures
            r == tempts(tempt_items@, *stack),
    {
        if stack.item_count == 0 {
            return false;
        }
        let mut i: usize = 0;
        while i < tempt_items.len()
            invariant
                0 <= i <= tempt_items@.len(),
                stack.item_count > 0,
                forall|j: int| 0 <= j < i ==> tempt_items@[j] != stack.item,
            decreases tempt_items@.len() - i,
        {
            if tempt_items[i] == stack.item {
                assert(tempt_items@[i as int] == stack.item);
                return true;
            }
            i += 1;
        }
        false
    }

    /// The player holds a tempting item in its main or off hand.
    pub fn is_holding_tempt_item(tempt_items: &Vec<ItemKind>, main_hand: &ItemStack, off_hand: &ItemStack) -> (r: bool)
        ensures
            r == (tempts(tempt_items@, *main_hand) || tempts(tempt_items@, *off_hand)),
    {
        Self::is_tempt_item(tempt_items, main_hand) || Self::is_tempt_item(tempt_items, off_hand)
    }

    /// While the pause runs it counts down and nothing starts; after it, `find_player` looks
    /// for a tempting player in range.
    pub fn can_start<F: FnOnce() -> bool>(&mut self, find_player: F) -> (r: bool)
        requires
            find_player.requires(()),
        ensures
            old(self).cooldown > 0 ==> !r && final(self).cooldown == old(self).cooldown - 1,
            old(self).cooldown <= 0 ==> find_player.ensures((), r) && final(self).cooldown == old(
                self).cooldown,
            final(self).running == old(self).running,
    {
        if self.cooldown > 0 {
            self.cooldown -= 1;
            return false;
        }
        find_player()
    }

    /// A scaring mob stops following when the player is gone, or, within 6 blocks, moves or
    /// turns more than a little while watched.
    pub fn scared_off(can_scare: bool, player_present: bool, within_scare_range: bool, moved: bool, turned: bool) -> (r: bool)
        ensures
            r == (can_scare && (!player_present || (within_scare_range && (moved || turned)))),
    {
        can_scare && (!player_present || (within_scare_range && (moved || turned)))
    }

    /// Goes on unless scared off, with the same checks as starting.
    pub fn should_continue<F: FnOnce() -> bool>(&mut self, scared_off: bool, find_player: F) -> (r: bool)
        requires
            find_player.requires(()),
        ensures
            scared_off ==> !r && final(self).cooldown == old(self).cooldown,
            !scared_off && old(self).cooldown > 0 ==> !r && final(self).cooldown == old(self).cooldown
                - 1,
            !scared_off && old(self).cooldown <= 0 ==> find_player.ensures((), r) && final(
                self).cooldown == old(self).cooldown,
            final(self).running == old(self).running,
    {
        if scared_off {
            return false;
        }
        self.can_start(find_player)
    }

    pub fn start(&mut self)
        ensures
            final(self).running && final(self).cooldown == old(self).cooldown,
    {
        self.running = true;
    }

    /// Stops following and waits `to_goal_ticks(100)` checks before following again; the
    /// navigation stops.
    pub fn stop(&mut self)
        ensures
            !final(self).running && final(self).cooldown == goal_ticks(COOLDOWN_TICKS as int),
    {
        self.cooldown = to_goal_ticks(COOLDOWN_TICKS);
        self.running = false;
    }

    pub fn controls(&self) -> (r: Controls)
        ensures
            r == (Controls { movement: true, look: true, jump: false, target: false }),
    {
        Controls { movement: true, look: true, jump: false, target: false }
    }
}

/// The pause left after `k` checks that found it running.
pub open spec fn cooldown_after(cooldown: int, k: nat) -> int
    decreases k,
{
    if k == 0 {
        cooldown
    } else if cooldown_after(cooldown, (k - 1) as nat) > 0 {
        cooldown_after(cooldown, (k - 1) as nat) - 1
    } else {
        cooldown_after(cooldown, (k - 1) as nat)
    }
}

/// After `stop`, the next `to_goal_ticks(100)` = 50 checks refuse to start (the pause counts
/// down through them), and the one after that may start.
pub proof fn lemma_tempt_pause(k: nat)
    ensures
        k < goal_ticks(COOLDOWN_TICKS as int) ==> cooldown_after(goal_ticks(COOLDOWN_TICKS as int), k)
            == goal_ticks(COOLDOWN_TICKS as int) - k > 0,
        k >= goal_ticks(COOLDOWN_TICKS as int) ==> cooldown_after(goal_ticks(COOLDOWN_TICKS as int), k)
            == 0,
    decreases k,
{
    if k > 0 {
        lemma_tempt_pause((k - 1) as nat);
    }
}

} // verus!
