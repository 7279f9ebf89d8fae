use pumpkin::entity::ai::goal::to_goal_ticks;
use pumpkin::entity::ai::goal::track_target::{TrackContext, TrackTargetGoal};

#[test]
fn forgets_unseen_target_after_vanilla_memory_window() {
    let mut goal = TrackTargetGoal::with_default(true);
    let memory_ticks = to_goal_ticks(goal.max_time_without_visibility());

    for _ in 0..memory_ticks {
        assert!(goal.remembers_visible_target(false));
    }
    assert!(!goal.remembers_visible_target(false));
}

#[test]
fn seeing_target_resets_unseen_memory() {
    let mut goal = TrackTargetGoal::with_default(true);
    assert!(goal.remembers_visible_target(false));
    assert!(goal.remembers_visible_target(true));
    assert_eq!(goal.time_without_visibility(), 0);
}

#[test]
fn goal_ticks_round_up() {
    assert_eq!(to_goal_ticks(60), 30);
    assert_eq!(to_goal_ticks(61), 31);
    assert_eq!(to_goal_ticks(0), 0);
    assert_eq!(to_goal_ticks(1), 1);
    assert_eq!(to_goal_ticks(-1), 0);
    assert_eq!(to_goal_ticks(-3), -1);
    assert_eq!(to_goal_ticks(300), 150);
}

#[test]
fn longer_memory_window_after_setting_unseen_ticks() {
    let mut goal = TrackTargetGoal::with_default(true).set_unseen_memory_ticks(10);
    for _ in 0..5 {
        assert!(goal.remembers_visible_target(false));
    }
    assert!(!goal.remembers_visible_target(false));
}

#[test]
fn cannot_track_without_target_or_predicate() {
    let mut goal = TrackTargetGoal::new(false, false);
    assert!(!goal.can_track(None, true));
    assert!(!goal.can_track(Some(7), false));
    assert!(goal.can_track(Some(7), true));
}

#[test]
fn navigation_check_refuses_targets_until_paths_exist() {
    let mut goal = TrackTargetGoal::new(false, true);
    assert!(!goal.can_track(Some(7), true));
    // The verdict is kept while the cooldown runs.
    assert!(!goal.can_track(Some(7), true));
}

fn context(mob_target: Option<i32>, seen: bool) -> TrackContext {
    TrackContext {
        mob_target,
        target_is_living: true,
        can_attack: true,
        allied: false,
        within_follow_range: true,
        has_line_of_sight: seen,
    }
}

#[test]
fn should_continue_uses_fallback_target() {
    let mut goal = TrackTargetGoal::with_default(false);
    assert_eq!(goal.should_continue(&context(None, true)), None);
    goal.set_target_mob(Some(3));
    assert_eq!(goal.should_continue(&context(None, true)), Some(3));
    assert_eq!(goal.should_continue(&context(Some(9), true)), Some(9));
    let mut allied = context(Some(9), true);
    allied.allied = true;
    assert_eq!(goal.should_continue(&allied), None);
    goal.stop();
    assert_eq!(goal.target_mob(), None);
}

#[test]
fn should_continue_forgets_unseen_target() {
    let mut goal = TrackTargetGoal::with_default(true).set_unseen_memory_ticks(2);
    assert_eq!(goal.should_continue(&context(Some(4), false)), Some(4));
    assert_eq!(goal.should_continue(&context(Some(4), false)), None);
    goal.start();
    assert_eq!(goal.time_without_visibility(), 0);
    assert_eq!(goal.should_continue(&context(Some(4), false)), Some(4));
}
