use pumpkin::entity::EntityKind;
use pumpkin::entity::ai::goal::avoid_entity::{self, FleeSpeed};
use pumpkin::entity::ai::goal::creeper_ignite::{CreeperIgniteGoal, IgniteCandidate, IgniteTarget};
use pumpkin::entity::ai::goal::eat_grass::{EatAction, EatGrassGoal, GrassContext};
use pumpkin::entity::ai::goal::escape_danger::{EscapeDanger, EscapePlan, escape_plan, look_for_water};
use pumpkin::entity::ai::goal::go_to_wanted_item::{
    WalkStep, WantedItem, WantedItemWalk, wanted_item_in_walking_range,
};
use pumpkin::entity::ai::goal::owner_hurt_target::{OwnerAttack, OwnerHurtContext, OwnerHurtTargetGoal};
use pumpkin::entity::ai::goal::revenge::{
    AlertCandidate, AlertSource, EntityTypeFilter, RevengeContext, RevengeGoal,
};
use pumpkin::entity::ai::goal::tempt::TemptState;
use pumpkin::entity::ai::goal::trade_with_player::{TradeContext, TradeWithPlayerGoal};
use pumpkin::entity::ai::goal::wander_around::WanderSchedule;
use pumpkin::entity::ai::goal::water_avoiding_random_flying::RandomFlightChance;
use pumpkin::entity::ai::goal::{get_tick_count, move_towards_restriction, run_around_like_crazy};
use pumpkin::item::{ItemKind, ItemStack};
use pumpkin::world::BlockPos;

fn grass(edible: bool, grass_below: bool, griefing: bool) -> GrassContext {
    GrassContext { is_baby: false, edible_at_feet: edible, grass_block_below: grass_below, mob_griefing: griefing }
}

#[test]
fn eat_grass_eats_once_on_the_thirty_sixth_tick() {
    let mut goal = EatGrassGoal::default();
    assert_eq!(goal.get_timer(), 0);
    assert!(!goal.should_continue());
    goal.start();
    assert_eq!(goal.get_timer(), 40);
    let ctx = grass(true, true, true);
    let mut meals = Vec::new();
    for tick in 1..=45 {
        let action = goal.tick(&ctx);
        if action != EatAction::Nothing {
            meals.push((tick, action));
        }
    }
    assert_eq!(meals, vec![(36, EatAction::EatPlant { break_block: true })]);
    assert_eq!(goal.get_timer(), 0);
    assert!(!goal.should_continue());
}

#[test]
fn eat_grass_turns_grass_block_to_dirt_only_when_griefing() {
    let mut goal = EatGrassGoal::default();
    goal.start();
    let mut last = EatAction::Nothing;
    for _ in 0..36 {
        last = goal.tick(&grass(false, true, false));
    }
    assert_eq!(last, EatAction::EatGrassBlock { turn_to_dirt: false });
    goal.stop();
    assert_eq!(goal.get_timer(), 0);
}

#[test]
fn eat_grass_start_needs_a_zero_roll_and_food() {
    let goal = EatGrassGoal::default();
    assert!(goal.can_start_with_roll(0, &grass(false, true, true)));
    assert!(!goal.can_start_with_roll(1, &grass(true, true, true)));
    assert!(!goal.can_start_with_roll(0, &grass(false, false, true)));
    assert_eq!(goal.interval(true), 50);
    assert_eq!(goal.interval(false), 1000);
    assert!(!goal.can_start(&grass(false, false, true)));
    assert_eq!(get_tick_count(false, 40), 20);
    assert_eq!(get_tick_count(true, 40), 40);
}

#[test]
fn creeper_fuse_follows_the_target() {
    let mut goal = CreeperIgniteGoal::new(12);
    assert_eq!(goal.creeper(), 12);
    assert!(goal.can_start(1, None));
    assert!(!goal.can_start(0, None));
    assert!(goal.can_start(0, Some(IgniteCandidate { alive: true, within_start_range: true })));
    assert!(!goal.can_start(-1, Some(IgniteCandidate { alive: true, within_start_range: false })));
    // Without a remembered target the fuse dies down.
    assert_eq!(goal.tick(Some(IgniteTarget { alive: true, within_fuse_range: true, visible: true })), -1);
    goal.start(Some(5));
    assert_eq!(goal.target(), Some(5));
    assert_eq!(goal.tick(Some(IgniteTarget { alive: true, within_fuse_range: true, visible: true })), 1);
    assert_eq!(goal.tick(Some(IgniteTarget { alive: true, within_fuse_range: true, visible: false })), -1);
    assert_eq!(goal.tick(Some(IgniteTarget { alive: false, within_fuse_range: true, visible: true })), -1);
    goal.stop();
    assert_eq!(goal.target(), None);
    assert!(goal.should_run_every_tick());
}

#[test]
fn trading_needs_a_steady_merchant_and_a_close_player() {
    let goal = TradeWithPlayerGoal::new();
    let ok = TradeContext { alive: true, touching_water: false, on_ground: true, velocity_dirty: false, trading_player_close: Some(true) };
    assert!(goal.can_start(&ok));
    assert!(!goal.can_start(&TradeContext { trading_player_close: Some(false), ..ok }));
    assert!(!goal.can_start(&TradeContext { trading_player_close: None, ..ok }));
    assert!(!goal.can_start(&TradeContext { touching_water: true, ..ok }));
    assert!(!goal.can_start(&TradeContext { on_ground: false, ..ok }));
    assert!(goal.controls().jump && goal.controls().movement);
}

fn owner_context(time: i32, id: i32) -> OwnerHurtContext {
    OwnerHurtContext {
        tamed: true,
        sitting: false,
        owner: Some(OwnerAttack { last_attack_time: time, last_attacking_id: id }),
        other_exists: true,
        other_passes: true,
        can_attack_with_owner: true,
    }
}

#[test]
fn owner_hurt_target_answers_each_attack_once() {
    let mut goal = OwnerHurtTargetGoal::new();
    assert!(goal.can_start(&owner_context(5, 42)));
    assert_eq!(goal.start(Some(5)), Some(42));
    // The same attack is not answered again.
    assert!(!goal.can_start(&owner_context(5, 42)));
    assert!(goal.can_start(&owner_context(6, 43)));
    assert!(!goal.can_start(&OwnerHurtContext { sitting: true, ..owner_context(7, 43) }));
    assert!(!goal.can_start(&owner_context(7, 0)));
    assert!(!goal.can_start(&OwnerHurtContext { can_attack_with_owner: false, ..owner_context(7, 44) }));
    goal.stop();
}

fn revenge_context(time: i32, attacker: i32, kind: EntityKind) -> RevengeContext {
    RevengeContext {
        last_attacked_time: time,
        last_attacker_id: attacker,
        attacker_type: Some(kind),
        universal_anger: false,
        attacker_passes: true,
    }
}

fn candidate(id: i32, kind: EntityKind) -> AlertCandidate {
    AlertCandidate {
        entity_id: id,
        entity_type: kind,
        is_spectator: false,
        is_mob: true,
        has_target: false,
        owner: None,
        allied_to_attacker: false,
    }
}

#[test]
fn revenge_targets_the_attacker_and_alerts_its_kind() {
    let zombie = EntityKind::Other(54);
    let mut goal = RevengeGoal::new(true).alerting_others_except(EntityTypeFilter::new(vec![EntityKind::Other(99)]));
    assert!(goal.alerts_others());
    assert!(goal.can_start(&revenge_context(10, 7, EntityKind::Player)));
    let source = AlertSource { entity_id: 1, entity_type: zombie, tamable: false, owner: None };
    let nearby = vec![
        candidate(1, zombie),
        candidate(2, zombie),
        AlertCandidate { has_target: true, ..candidate(3, zombie) },
        candidate(4, EntityKind::Hoglin),
        AlertCandidate { allied_to_attacker: true, ..candidate(5, zombie) },
        candidate(6, zombie),
        AlertCandidate { is_spectator: true, ..candidate(8, zombie) },
    ];
    let start = goal.start(10, &source, &nearby);
    assert_eq!(start.target, Some(7));
    assert_eq!(start.alerted, vec![2, 6]);
    // The same attack is not avenged twice.
    assert!(!goal.can_start(&revenge_context(10, 7, EntityKind::Player)));
    goal.stop();
}

#[test]
fn revenge_ignores_filtered_attackers_and_universal_anger() {
    let mut goal = RevengeGoal::new(false).ignoring(EntityTypeFilter::new(vec![EntityKind::Hoglin]));
    assert!(!goal.can_start(&revenge_context(1, 7, EntityKind::Hoglin)));
    assert!(!goal.can_start(&RevengeContext { universal_anger: true, ..revenge_context(1, 7, EntityKind::Player) }));
    assert!(!goal.can_start(&revenge_context(1, 0, EntityKind::Player)));
    assert!(!goal.can_start(&RevengeContext { attacker_type: None, ..revenge_context(1, 7, EntityKind::Player) }));
    assert!(goal.can_start(&revenge_context(1, 7, EntityKind::Player)));
    let source = AlertSource { entity_id: 1, entity_type: EntityKind::Piglin, tamable: false, owner: None };
    // Without alerting nobody joins in.
    let start = goal.start(1, &source, &vec![candidate(2, EntityKind::Piglin)]);
    assert!(start.alerted.is_empty());
}

#[test]
fn tamed_mobs_only_alert_mobs_of_the_same_owner() {
    let wolf = EntityKind::Other(120);
    let goal = RevengeGoal::new(false).alerting_others();
    let source = AlertSource { entity_id: 1, entity_type: wolf, tamable: true, owner: Some(77) };
    let nearby = vec![
        AlertCandidate { owner: Some(77), ..candidate(2, wolf) },
        AlertCandidate { owner: Some(78), ..candidate(3, wolf) },
        candidate(4, wolf),
    ];
    assert_eq!(goal.alert_others(&source, &nearby), vec![2]);
}

#[test]
fn water_search_picks_the_nearest_first_found() {
    let mob = BlockPos::new(0, 64, 0);
    let water = |pos: &BlockPos| (pos.x == 3 && pos.y == 64 && pos.z == 0) || (pos.x == -2 && pos.y == 65 && pos.z == 0) || (pos.x == 0 && pos.y == 63 && pos.z == 3);
    // (-2, 65, 0) and (3, 64, 0) and (0, 63, 3) are 3 blocks away; the first in x order wins.
    assert_eq!(look_for_water(false, mob, water), Some(BlockPos::new(-2, 65, 0)));
    assert_eq!(look_for_water(true, mob, water), None);
    assert_eq!(look_for_water(false, mob, |_: &BlockPos| false), None);
    let near = |pos: &BlockPos| (pos.x == 5 && pos.z == 5) || (pos.x == 0 && pos.y == 64 && pos.z == 1);
    assert_eq!(look_for_water(false, mob, near), Some(BlockPos::new(0, 64, 1)));
}

#[test]
fn escape_runs_to_water_only_when_burning() {
    let w = Some(BlockPos::new(1, 2, 3));
    assert_eq!(escape_plan(false, true, w), EscapePlan::Stay);
    assert_eq!(escape_plan(true, true, w), EscapePlan::ToWater(BlockPos::new(1, 2, 3)));
    assert_eq!(escape_plan(true, false, w), EscapePlan::Random);
    assert_eq!(escape_plan(true, true, None), EscapePlan::Random);
    let mut state = EscapeDanger::new();
    assert!(!state.is_running());
    state.start();
    assert!(state.is_running());
    state.stop();
    assert!(!state.is_running());
}

fn item(id: i32, block: BlockPos) -> WantedItem {
    WantedItem { entity_id: id, block, within_walking_distance: true, inside_world_border: true }
}

#[test]
fn wanted_item_must_be_close_and_inside_the_border() {
    let i = item(1, BlockPos::new(0, 0, 0));
    assert_eq!(wanted_item_in_walking_range(true, false, Some(i)).map(|w| w.entity_id), Some(1));
    assert!(wanted_item_in_walking_range(false, false, Some(i)).is_none());
    assert!(wanted_item_in_walking_range(true, true, Some(i)).is_none());
    assert!(wanted_item_in_walking_range(true, false, Some(WantedItem { within_walking_distance: false, ..i })).is_none());
    assert!(wanted_item_in_walking_range(true, false, Some(WantedItem { inside_world_border: false, ..i })).is_none());
}

#[test]
fn walking_to_an_item_repaths_only_when_needed() {
    let mut walk = WantedItemWalk::new();
    let mob = BlockPos::new(0, 64, 0);
    let target = BlockPos::new(5, 64, 0);
    let step = walk.go_to_wanted_item_with_roll(Some(target), mob, true, false, 0);
    assert_eq!(step, WalkStep { look_at_item: true, stop_navigation: false, walk_to_item: true });
    assert_eq!(walk.last_target_block, Some(target));
    // Walking, the item moved by one block: keep the path.
    let step = walk.go_to_wanted_item_with_roll(Some(BlockPos::new(6, 64, 0)), mob, false, false, 0);
    assert!(!step.walk_to_item && step.look_at_item);
    // Moved by three blocks: a new path.
    let step = walk.go_to_wanted_item_with_roll(Some(BlockPos::new(8, 64, 0)), mob, false, false, 0);
    assert!(step.walk_to_item);
    // Stuck: wait the drawn pause, then retry.
    let step = walk.go_to_wanted_item_with_roll(Some(target), mob, true, true, 2);
    assert!(!step.walk_to_item);
    assert_eq!(walk.remaining_cooldown, 1);
    assert_eq!(walk.last_target_block, None);
    let step = walk.go_to_wanted_item_with_roll(Some(target), mob, true, true, 0);
    assert!(!step.walk_to_item);
    assert_eq!(walk.remaining_cooldown, 0);
    let step = walk.go_to_wanted_item_with_roll(Some(target), mob, true, true, 0);
    assert!(step.walk_to_item);
    // Arrived: stop the navigation.
    let step = walk.go_to_wanted_item_with_roll(Some(mob), mob, false, false, 0);
    assert_eq!(step, WalkStep { look_at_item: true, stop_navigation: true, walk_to_item: false });
    assert_eq!(walk.last_target_block, None);
    let step = walk.go_to_wanted_item(None, mob, true, true);
    assert_eq!(step, WalkStep { look_at_item: false, stop_navigation: false, walk_to_item: false });
    walk.stop();
    assert_eq!(walk.remaining_cooldown, 0);
}

#[test]
fn wandering_waits_for_a_zero_roll_unless_triggered() {
    let mut schedule = WanderSchedule::new();
    assert_eq!(schedule.interval, 120);
    assert!(!schedule.can_start_with_roll(false, 3, || true));
    assert!(schedule.can_start_with_roll(false, 0, || true));
    assert!(!schedule.can_start_with_roll(false, 0, || false));
    assert!(!schedule.can_start_with_roll(true, 0, || true));
    schedule.trigger();
    assert!(!schedule.can_start_with_roll(false, 3, || false));
    assert!(schedule.force_trigger);
    assert!(schedule.can_start_with_roll(false, 3, || true));
    assert!(!schedule.force_trigger);
    schedule.set_interval(1);
    // With an interval of one goal tick every roll is 0.
    assert!(schedule.can_start(false, || true));
    assert!(WanderSchedule::should_continue(false, false));
    assert!(!WanderSchedule::should_continue(true, false));
}

#[test]
fn flying_wander_chance_is_sixty_checks() {
    let chance = RandomFlightChance::new();
    assert_eq!(chance.chance, 60);
    assert!(chance.can_start_with_roll(false, 0, || true));
    assert!(!chance.can_start_with_roll(false, 1, || true));
    assert!(!chance.can_start_with_roll(true, 0, || true));
}

#[test]
fn small_goals_decide_as_documented() {
    assert!(run_around_like_crazy::can_start(false, true, || true));
    assert!(!run_around_like_crazy::can_start(true, true, || true));
    assert!(!run_around_like_crazy::can_start(false, false, || true));
    assert!(run_around_like_crazy::should_continue(false, false, true));
    assert!(!run_around_like_crazy::should_continue(false, false, false));
    assert!(!move_towards_restriction::can_start(true, || true));
    assert!(move_towards_restriction::can_start(false, || true));
    assert!(!avoid_entity::can_start(false, || true));
    assert!(avoid_entity::can_start(true, || true));
    assert_eq!(avoid_entity::flee_speed(true, true), Some(FleeSpeed::Fast));
    assert_eq!(avoid_entity::flee_speed(true, false), Some(FleeSpeed::Slow));
    assert_eq!(avoid_entity::flee_speed(false, true), None);
}

#[test]
fn tempting_waits_after_stopping() {
    let carrots = vec![ItemKind::Other(1)];
    let carrot = ItemStack::new(1, ItemKind::Other(1));
    assert!(TemptState::is_tempt_item(&carrots, &carrot));
    assert!(!TemptState::is_tempt_item(&carrots, &ItemStack::new(0, ItemKind::Other(1))));
    assert!(TemptState::is_holding_tempt_item(&carrots, &ItemStack::empty(), &carrot));
    let mut state = TemptState::new();
    assert!(state.can_start(|| true));
    state.start();
    assert!(state.is_running());
    state.stop();
    assert!(!state.is_running());
    assert_eq!(state.cooldown, 50);
    for _ in 0..50 {
        assert!(!state.can_start(|| true));
    }
    assert!(state.can_start(|| true));
    assert!(TemptState::scared_off(true, false, false, false, false));
    assert!(TemptState::scared_off(true, true, true, true, false));
    assert!(!TemptState::scared_off(true, true, false, true, true));
    assert!(!TemptState::scared_off(false, false, false, false, false));
    assert!(!state.should_continue(true, || true));
}
