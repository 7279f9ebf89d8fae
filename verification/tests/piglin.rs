use pumpkin::entity::EntityKind;
use pumpkin::entity::ai::sensing::Sensing;
use pumpkin::entity::mob::piglin::{
    Attacker, EquipmentRolls, GoalKind, PiglinActivity, PiglinEffect, PiglinEntity, PiglinFlag, PiglinTickContext,
};
use pumpkin::entity::mob::piglin_ai::{PiglinAi, PiglinSound};
use pumpkin::item::{EquipmentSlot, Equipment, ItemKind, ItemStack, ItemTags};
use pumpkin::world::BlockPos;

fn gold(count: u8) -> ItemStack {
    let mut s = ItemStack::new(count, ItemKind::GoldIngot);
    s.tags.piglin_loved = true;
    s
}

fn piglin() -> PiglinEntity {
    PiglinEntity::new(Equipment::empty())
}

#[test]
fn new_piglin_registers_its_goals() {
    let p = piglin();
    let goals: Vec<(u8, GoalKind)> = p.mob_entity.goals.iter().map(|g| (g.priority, g.goal)).collect();
    assert_eq!(goals.len(), 8);
    assert_eq!(goals[2], (2, GoalKind::GoToWantedItem));
    assert_eq!(goals[7], (7, GoalKind::RandomLookAround));
    let targets: Vec<(u8, GoalKind)> = p.mob_entity.target_goals.iter().map(|g| (g.priority, g.goal)).collect();
    assert_eq!(targets[0], (1, GoalKind::Revenge { check_visibility: true }));
    assert_eq!(targets[4], (4, GoalKind::TargetHoglin));
    assert!(p.mob_entity.can_pick_up_loot);
    assert_eq!(p.time_trying_to_reach_item, -1);
    assert_eq!(p.get_base_experience_reward(), 5);
}

#[test]
fn barter_table_rows() {
    assert_eq!(PiglinAi::barter_entry(0), (ItemKind::EnchantedBook, 1, 1));
    assert_eq!(PiglinAi::barter_entry(4), (ItemKind::EnchantedBook, 1, 1));
    assert_eq!(PiglinAi::barter_entry(5), (ItemKind::IronBoots, 1, 1));
    assert_eq!(PiglinAi::barter_entry(39), (ItemKind::IronNugget, 10, 36));
    assert_eq!(PiglinAi::barter_entry(138), (ItemKind::Obsidian, 1, 1));
    assert_eq!(PiglinAi::barter_entry(418), (ItemKind::Gravel, 8, 16));
    assert_eq!(PiglinAi::barter_entry(458), (ItemKind::Blackstone, 8, 16));
    let out = PiglinAi::barter_outcome(50, 2);
    assert_eq!(out, vec![ItemStack::new(4, ItemKind::EnderPearl)]);
    assert_eq!(out[0].max_stack_size, 16);
}

#[test]
fn random_barters_stay_in_the_table() {
    for _ in 0..500 {
        let out = PiglinAi::get_barter_response_items();
        assert_eq!(out.len(), 1);
        let stack = out[0];
        let (lo, hi) = match stack.item {
            ItemKind::IronNugget => (10, 36),
            ItemKind::EnderPearl | ItemKind::Leather => (2, 4),
            ItemKind::StringItem => (3, 9),
            ItemKind::Quartz => (5, 12),
            ItemKind::CryingObsidian => (1, 3),
            ItemKind::SoulSand | ItemKind::NetherBrick => (2, 8),
            ItemKind::SpectralArrow => (6, 12),
            ItemKind::Gravel | ItemKind::Blackstone => (8, 16),
            _ => (1, 1),
        };
        assert!(lo <= stack.item_count && stack.item_count <= hi);
    }
}

#[test]
fn inventory_tops_up_stacks_in_order_then_takes_a_slot() {
    let mut p = piglin();
    let string = ItemStack::new(60, ItemKind::StringItem);
    assert_eq!(p.add_to_inventory(string), None);
    assert_eq!(p.add_to_inventory(ItemStack::new(10, ItemKind::StringItem)), None);
    assert_eq!(p.inventory.len(), 2);
    assert_eq!(p.inventory[0].item_count, 64);
    assert_eq!(p.inventory[1].item_count, 6);
    assert_eq!(p.add_to_inventory(ItemStack::empty()), None);
    assert_eq!(p.inventory.len(), 2);
    for _ in 0..6 {
        assert_eq!(p.add_to_inventory(ItemStack::new(64, ItemKind::Obsidian)), None);
    }
    assert_eq!(p.inventory.len(), 8);
    assert!(p.can_add_to_inventory(&ItemStack::new(1, ItemKind::StringItem)));
    assert!(!p.can_add_to_inventory(&ItemStack::new(1, ItemKind::Quartz)));
    // Full: what does not fit comes back, after topping up the string stack.
    let back = p.add_to_inventory(ItemStack::new(64, ItemKind::StringItem));
    assert_eq!(back, Some(ItemStack::new(6, ItemKind::StringItem)));
    assert_eq!(p.inventory[1].item_count, 64);
    let total: u32 = p.inventory.iter().filter(|s| s.item == ItemKind::StringItem).map(|s| s.item_count as u32).sum();
    assert_eq!(total + 6, 60 + 10 + 64);
    assert_eq!(p.add_to_inventory(ItemStack::new(3, ItemKind::Quartz)), Some(ItemStack::new(3, ItemKind::Quartz)));
}

#[test]
fn piglins_want_gold_and_refuse_repellents() {
    let mut p = piglin();
    assert!(PiglinAi::wants_to_pickup(&p, &gold(1), false));
    let mut soul_torch = ItemStack::new(1, ItemKind::Other(5));
    soul_torch.tags.piglin_repellent = true;
    assert!(!PiglinAi::wants_to_pickup(&p, &soul_torch, true));
    let nugget = ItemStack::new(9, ItemKind::GoldNugget);
    assert!(PiglinAi::wants_to_pickup(&p, &nugget, false));
    let mut pork = ItemStack::new(1, ItemKind::Other(6));
    pork.tags.piglin_food = true;
    assert!(PiglinAi::wants_to_pickup(&p, &pork, false));
    p.eat_cooldown_timer = 5;
    assert!(!PiglinAi::wants_to_pickup(&p, &pork, false));
    // A gold ingot is refused while a loved item is in the off hand.
    p.mob_entity.equipment.off_hand = gold(1);
    assert!(!PiglinAi::wants_to_pickup(&p, &gold(1), false));
    // An angry piglin that may not admire wants nothing.
    p.mob_entity.equipment.off_hand = ItemStack::empty();
    p.admiring_disabled_timer = 10;
    p.mob_entity.has_target = true;
    assert!(!PiglinAi::wants_to_pickup(&p, &gold(1), false));
}

#[test]
fn weapons_replace_by_the_piglin_rules() {
    let p = piglin();
    let mut crossbow = ItemStack::new(1, ItemKind::Crossbow);
    crossbow.tags.piglin_preferred_weapon = true;
    let stick = ItemStack::new(1, ItemKind::Other(7));
    assert!(p.can_replace_current_item(&crossbow, &stick, false));
    assert!(!p.can_replace_current_item(&stick, &crossbow, true));
    let mut cursed = stick;
    cursed.binding_curse = true;
    assert!(!p.can_replace_current_item(&crossbow, &cursed, true));
    assert!(p.can_replace_current_item(&stick, &ItemStack::empty(), true));
    assert!(p.can_replace_current_item_for(&crossbow, false));
    let mut baby = piglin();
    baby.set_baby(true);
    assert!(!baby.can_replace_current_item(&crossbow, &stick, false));
    assert!(!baby.get_preferred_weapon_type());
}

#[test]
fn admiring_gold_offered_by_a_player() {
    let mut p = piglin();
    let mut hand = gold(3);
    let effects = p.mob_interact(&mut hand, false).expect("takes the gold");
    assert_eq!(hand.item_count, 2);
    assert!(matches!(effects.as_slice(), [PiglinEffect::StopWalking]));
    assert!(p.is_admiring());
    assert_eq!(p.admire_timer, 119);
    assert_eq!(p.off_hand_item().item_count, 1);
    assert_eq!(p.admiring_item.map(|s| s.item), Some(ItemKind::GoldIngot));
    // Already admiring: the interaction is not taken.
    let mut more = gold(3);
    assert!(p.mob_interact(&mut more, true).is_none());
    let mut creative = piglin();
    let mut stack = gold(3);
    assert!(creative.mob_interact(&mut stack, true).is_some());
    assert_eq!(stack.item_count, 3);
}

#[test]
fn bartering_happens_when_admiring_ends() {
    let mut p = piglin();
    p.start_admiring(gold(1));
    let ctx = PiglinTickContext { healthy: false, piglins_zombify: false, sensor_clock: 1, nearest_visible_player: None };
    for _ in 0..119 {
        p.mob_tick(true, &ctx);
    }
    assert!(!p.is_admiring());
    let effects = p.stop_holding_item_if_no_longer_admiring(false);
    assert_eq!(effects.len(), 1);
    match &effects[0] {
        PiglinEffect::Barter { input, outcome } => {
            assert_eq!(input.item, ItemKind::GoldIngot);
            assert_eq!(outcome.len(), 1);
        }
        _ => panic!("expected a barter"),
    }
    assert!(!p.is_holding_item_in_off_hand());
    assert!(p.admiring_item.is_none());
}

#[test]
fn a_baby_keeps_gold_and_stores_what_it_held() {
    let mut baby = piglin();
    baby.set_baby(true);
    baby.mob_entity.equipment.main_hand = gold(1);
    baby.mob_entity.equipment.off_hand = ItemStack::new(1, ItemKind::Other(3));
    let effects = baby.stop_holding_off_hand_item(true, false);
    assert_eq!(baby.main_hand_item().item, ItemKind::Other(3));
    assert_eq!(baby.inventory.len(), 1);
    assert!(matches!(effects.as_slice(), [PiglinEffect::ThrowTowardRandomPos(s)] if s.is_empty()));
    assert!(baby.mob_entity.persistence_required);
}

#[test]
fn hurt_by_a_player_disables_admiring() {
    let mut p = piglin();
    p.start_admiring(gold(1));
    p.set_dancing(true);
    let effects = p.was_hurt_by(&Attacker { is_living: true, kind: EntityKind::Player }, false);
    assert!(effects.iter().all(|e| !matches!(e, PiglinEffect::Barter { .. })));
    assert!(!p.is_admiring());
    assert!(!p.is_dancing());
    assert!(p.is_admiring_disabled());
    assert_eq!(p.admiring_disabled_timer, 400);
    let mut q = piglin();
    assert!(q.was_hurt_by(&Attacker { is_living: true, kind: EntityKind::Piglin }, false).is_empty());
    assert!(!q.is_admiring_disabled());
}

#[test]
fn timers_count_down_and_dancing_ends_with_the_celebration() {
    let mut p = piglin();
    p.celebration_timer = 2;
    p.set_dancing(true);
    p.hunt_cooldown_timer = 1;
    assert!(!p.can_hunt());
    let ctx = PiglinTickContext { healthy: true, piglins_zombify: false, sensor_clock: 40, nearest_visible_player: None };
    let step = p.mob_tick(true, &ctx).unwrap();
    assert!(step.scan_sensors && !step.convert);
    assert!(p.is_dancing());
    assert!(p.can_hunt());
    p.mob_tick(true, &PiglinTickContext { sensor_clock: 41, ..ctx });
    assert!(!p.is_dancing());
    assert_eq!(p.celebration_timer, 0);
    assert!(p.mob_tick(false, &ctx).is_none());
}

#[test]
fn zombification_after_three_hundred_ticks_in_the_overworld() {
    let mut p = piglin();
    let ctx = PiglinTickContext { healthy: true, piglins_zombify: true, sensor_clock: 1, nearest_visible_player: None };
    for _ in 0..300 {
        assert!(!p.mob_tick(true, &ctx).unwrap().convert);
    }
    assert!(p.mob_tick(true, &ctx).unwrap().convert);
    p.set_immune_to_zombification(true);
    assert!(!p.mob_tick(true, &ctx).unwrap().convert);
    assert_eq!(p.time_in_overworld, 0);
    p.add_to_inventory(ItemStack::new(2, ItemKind::Quartz));
    p.hold_in_main_hand(ItemStack::new(1, ItemKind::Crossbow));
    let conversion = p.convert_to_zombified(false);
    assert!(conversion.play_sound);
    assert_eq!(conversion.drops, vec![ItemStack::new(2, ItemKind::Quartz)]);
    assert_eq!(conversion.spawn, EntityKind::ZombifiedPiglin);
    assert_eq!(conversion.equipment.main_hand.item, ItemKind::Crossbow);
    assert_eq!(conversion.equipment, p.mob_entity.equipment);
    assert!(p.inventory.is_empty());
    assert!(!p.convert_to_zombified(true).play_sound);
}

#[test]
fn saved_data_round_trip() {
    let mut p = piglin();
    p.admire_timer = 30;
    p.hunt_cooldown_timer = 0;
    p.set_cannot_hunt(true);
    p.set_baby(true);
    p.time_in_overworld = 12;
    p.add_to_inventory(ItemStack::new(5, ItemKind::Leather));
    let nbt = p.mob_write_nbt();
    assert_eq!(nbt.memories.len(), 1);
    assert_eq!(nbt.immune_to_zombification, None);
    let mut q = piglin();
    q.mob_read_nbt(&nbt);
    assert_eq!(q.admire_timer, 30);
    assert!(q.is_baby());
    assert!(!q.can_hunt());
    assert_eq!(q.time_in_overworld, 12);
    assert_eq!(q.inventory, p.inventory);
    assert_eq!(q.mob_init_data_tracker(), vec![PiglinFlag::Baby]);
}

#[test]
fn saved_memories_are_clamped() {
    let mut p = piglin();
    let mut nbt = piglin().mob_write_nbt();
    nbt.memories = vec![
        (pumpkin::entity::mob::piglin::ExpiringMemory::AdmiringDisabled, -5),
        (pumpkin::entity::mob::piglin::ExpiringMemory::HuntedRecently, 1 << 40),
        (pumpkin::entity::mob::piglin::ExpiringMemory::HuntedRecently, 3),
    ];
    p.admiring_disabled_timer = 9;
    p.mob_read_nbt(&nbt);
    assert_eq!(p.admiring_disabled_timer, 0);
    assert_eq!(p.hunt_cooldown_timer, i32::MAX);
    assert_eq!(pumpkin::entity::mob::piglin::ExpiringMemory::AdmiringItem.key(), "minecraft:admiring_item");
}

#[test]
fn activity_sounds() {
    let mut p = piglin();
    assert_eq!(p.current_activity(), PiglinActivity::Idle);
    assert_eq!(p.update_activity(false, None), None);
    p.mob_entity.has_target = true;
    assert_eq!(p.update_activity(false, None), Some(PiglinSound::Angry));
    assert_eq!(p.activity, PiglinActivity::Fight);
    p.mob_entity.has_target = false;
    let mut player = Equipment::empty();
    player.main_hand = gold(1);
    assert_eq!(PiglinAi::get_sound_for_activity(&p, PiglinActivity::Idle, false, Some(&player)), PiglinSound::Jealous);
    assert_eq!(PiglinAi::get_sound_for_activity(&p, PiglinActivity::Idle, true, Some(&player)), PiglinSound::Retreat);
    p.near_repellent = true;
    assert_eq!(PiglinAi::get_sound_for_activity(&p, PiglinActivity::Idle, false, None), PiglinSound::Retreat);
    p.near_repellent = false;
    assert_eq!(PiglinAi::get_sound_for_activity(&p, PiglinActivity::Celebrate, false, None), PiglinSound::Celebrate);
    assert_eq!(PiglinAi::get_sound_for_activity(&p, PiglinActivity::Idle, false, None), PiglinSound::Ambient);
    p.ambient_sound_time = 10;
    // The ambient sound is that of the activity the piglin is in: still fighting.
    assert_eq!(p.tick_ambient_sound_with_roll(3, false, None), Some(PiglinSound::Angry));
    assert_eq!(p.ambient_sound_time, -80);
    assert_eq!(p.tick_ambient_sound_with_roll(3, false, None), None);
    assert_eq!(p.ambient_sound_time, -79);
}

#[test]
fn picking_up_items() {
    let mut p = piglin();
    assert_eq!(p.pick_up_count(&ItemStack::new(9, ItemKind::GoldNugget)), 9);
    assert_eq!(p.pick_up_count(&ItemStack::new(9, ItemKind::Quartz)), 1);
    assert!(p.picks_up_items(true, false, true));
    assert!(!p.picks_up_items(true, false, false));
    assert!(p.picks_up(&gold(1), true, 0, false));
    assert!(!p.picks_up(&gold(1), true, 10, false));
    let effects = p.take_picked_up_item(gold(1), false);
    assert!(effects.is_empty());
    assert!(p.is_admiring());
    let mut pork = ItemStack::new(1, ItemKind::Other(6));
    pork.tags.piglin_food = true;
    assert!(p.take_picked_up_item(pork, false).is_empty());
    assert!(p.has_eaten_recently());
    let effects = p.take_picked_up_item(ItemStack::new(1, ItemKind::Quartz), false);
    assert_eq!(p.inventory.len(), 1);
    assert!(matches!(effects.as_slice(), [PiglinEffect::ThrowTowardRandomPos(s)] if s.is_empty()));
}

#[test]
fn admiring_gives_up_when_the_item_stays_out_of_reach() {
    let mut p = piglin();
    p.start_admiring_if_seen(Some(gold(1)));
    assert!(p.is_admiring());
    p.stop_admiring_if_tired_of_trying_to_reach_item(true);
    assert_eq!(p.time_trying_to_reach_item, 0);
    for _ in 0..201 {
        p.stop_admiring_if_tired_of_trying_to_reach_item(true);
    }
    assert_eq!(p.time_trying_to_reach_item, 201);
    p.stop_admiring_if_tired_of_trying_to_reach_item(true);
    assert!(!p.is_admiring());
    assert!(p.is_walk_to_admire_disabled());
    assert_eq!(p.time_trying_to_reach_item, -1);
    let mut q = piglin();
    q.admire_gold_item();
    q.stop_admiring_if_item_too_far_away(true);
    assert!(q.is_admiring());
    q.stop_admiring_if_item_too_far_away(false);
    assert!(!q.is_admiring());
}

#[test]
fn armour_and_held_gold() {
    let mut eq = Equipment::empty();
    assert!(!PiglinAi::is_wearing_safe_armor(&eq));
    let mut helmet = ItemStack::new(1, ItemKind::GoldenHelmet);
    helmet.tags.piglin_safe_armor = true;
    eq.put(EquipmentSlot::Head, helmet);
    assert!(PiglinAi::is_wearing_safe_armor(&eq));
    assert!(!PiglinAi::is_holding_loved_item(&eq));
    eq.put(EquipmentSlot::OffHand, gold(1));
    assert!(PiglinAi::is_holding_loved_item(&eq));
    assert!(PiglinAi::is_player_holding_loved_item(&eq));
    assert!(PiglinAi::is_zombified(EntityKind::Zoglin));
    assert!(!PiglinAi::is_zombified(EntityKind::Piglin));
    assert!(PiglinAi::is_barter_currency(&gold(1)));
    assert!(!PiglinAi::is_barter_currency(&ItemStack::new(1, ItemKind::GoldNugget)));
    let p = piglin();
    assert!(PiglinAi::can_admire(&p, &gold(1)));
    let _ = ItemTags::none();
}

#[test]
fn repellent_scan_and_cancelling() {
    let mut p = piglin();
    let center = BlockPos::new(0, 64, 0);
    assert!(p.refresh_nearest_repellent(center, |pos: &BlockPos| pos.x == 8 && pos.y == 60 && pos.z == -8));
    assert!(p.is_near_repellent());
    assert!(!p.refresh_nearest_repellent(center, |pos: &BlockPos| pos.x == 9));
    assert!(!p.is_near_repellent());
    p.start_admiring(gold(1));
    assert_eq!(p.cancel_admiring().map(|s| s.item), Some(ItemKind::GoldIngot));
    assert!(!p.is_holding_item_in_off_hand());
    assert!(p.cancel_admiring().is_none());
    assert!(PiglinEntity::check_piglin_spawn_rules(false));
    assert!(!PiglinEntity::check_piglin_spawn_rules(true));
}

#[test]
fn damage_drops_the_inventory_of_a_dead_piglin() {
    let mut p = piglin();
    p.add_to_inventory(ItemStack::new(3, ItemKind::Gravel));
    let (dropped, effects) = p.on_damage(true, None, false);
    assert_eq!(dropped, vec![ItemStack::new(3, ItemKind::Gravel)]);
    assert!(effects.is_empty());
    assert_eq!(p.ambient_sound_time, -80);
    let (dropped, _) = p.on_damage(false, None, false);
    assert!(dropped.is_empty());
}

#[test]
fn sensing_caches_line_of_sight_for_the_tick() {
    let mut sensing = Sensing::default();
    assert!(sensing.has_line_of_sight(4, || true));
    // Cached: the raycast is not run again.
    assert!(sensing.has_line_of_sight(4, || panic!("raycast repeated")));
    assert!(!sensing.has_line_of_sight(5, || false));
    assert!(!sensing.has_line_of_sight(5, || panic!("raycast repeated")));
    sensing.tick();
    assert!(!sensing.has_line_of_sight(4, || false));
}

#[test]
fn new_adult_piglin_equipment_follows_the_rolls() {
    let rolls = EquipmentRolls { crossbow: false, helmet: true, chestplate: false, leggings: false, boots: true };
    let mut p = piglin();
    p.populate_default_equipment_slots_with_roll(&rolls, 0);
    assert_eq!(p.mob_entity.equipment.main_hand.item, ItemKind::GoldenSpear);
    assert_eq!(p.mob_entity.equipment.head.item, ItemKind::GoldenHelmet);
    assert!(p.mob_entity.equipment.chest.is_empty());
    assert!(p.mob_entity.equipment.legs.is_empty());
    assert_eq!(p.mob_entity.equipment.feet.item, ItemKind::GoldenBoots);

    let mut q = piglin();
    q.populate_default_equipment_slots_with_roll(&rolls, 3);
    assert_eq!(q.mob_entity.equipment.main_hand.item, ItemKind::GoldenSword);

    let crossbow = EquipmentRolls { crossbow: true, helmet: false, chestplate: false, leggings: false, boots: false };
    let mut r = piglin();
    r.populate_default_equipment_slots(&crossbow);
    assert_eq!(r.mob_entity.equipment.main_hand.item, ItemKind::Crossbow);
    assert_eq!(r.mob_entity.equipment.main_hand.item_count, 1);
    assert!(r.mob_entity.equipment.head.is_empty());
}

#[test]
fn baby_piglin_gets_no_equipment() {
    let rolls = EquipmentRolls { crossbow: true, helmet: true, chestplate: true, leggings: true, boots: true };
    let mut p = piglin();
    p.set_baby(true);
    p.populate_default_equipment_slots(&rolls);
    assert!(p.mob_entity.equipment.main_hand.is_empty());
    assert!(p.mob_entity.equipment.head.is_empty());
}

#[test]
fn ambient_sound_clock_decides_at_its_ends() {
    let mut p = piglin();
    p.ambient_sound_time = 0;
    assert_eq!(p.tick_ambient_sound(true, false, None), None);
    assert_eq!(p.ambient_sound_time, 1);
    p.ambient_sound_time = 1000;
    assert_eq!(p.tick_ambient_sound(true, false, None), Some(PiglinSound::Ambient));
    assert_eq!(p.ambient_sound_time, -80);
    p.ambient_sound_time = i32::MAX;
    assert_eq!(p.tick_ambient_sound_with_roll(i32::MAX, false, None), None);
    assert_eq!(p.ambient_sound_time, i32::MIN);
    assert_eq!(p.tick_ambient_sound(false, false, None), None);
    assert_eq!(p.ambient_sound_time, i32::MIN);
}

#[test]
fn memory_keys_are_distinct() {
    assert_eq!(pumpkin::entity::mob::piglin::ExpiringMemory::AdmiringDisabled.key(), "minecraft:admiring_disabled");
    assert_eq!(pumpkin::entity::mob::piglin::ExpiringMemory::HuntedRecently.key(), "minecraft:hunted_recently");
}

#[test]
fn picking_up_from_an_item_entity_splits_its_stack() {
    let mut p = piglin();
    let mut quartz = ItemStack::new(5, ItemKind::Quartz);
    let (effects, removed) = p.pick_up_item(&mut quartz, true, false);
    assert!(matches!(effects.as_slice(), [PiglinEffect::StopWalking, PiglinEffect::ThrowTowardRandomPos(_)]));
    assert!(!removed);
    assert_eq!(quartz.item_count, 4);
    assert_eq!(p.inventory.len(), 1);
    assert_eq!(p.inventory[0].item_count, 1);

    let mut nuggets = ItemStack::new(7, ItemKind::GoldNugget);
    let (effects, removed) = p.pick_up_item(&mut nuggets, true, false);
    assert!(matches!(effects.first(), Some(PiglinEffect::StopWalking)));
    assert!(removed);
    assert!(nuggets.is_empty());

    let mut refused = ItemStack::new(3, ItemKind::Quartz);
    let before = p.inventory.len();
    let (effects, removed) = p.pick_up_item(&mut refused, false, false);
    assert!(matches!(effects.as_slice(), [PiglinEffect::StopWalking]));
    assert!(!removed);
    assert_eq!(refused.item_count, 3);
    assert_eq!(p.inventory.len(), before);

    let mut q = piglin();
    let mut ingot = gold(2);
    let (_, removed) = q.pick_up_item(&mut ingot, true, false);
    assert!(!removed);
    assert_eq!(ingot.item_count, 1);
    assert!(q.is_admiring());
    assert_eq!(q.off_hand_item().item_count, 1);
}

#[test]
fn default_gear_is_tagged_for_piglins() {
    let rolls = EquipmentRolls { crossbow: false, helmet: true, chestplate: true, leggings: false, boots: false };
    let mut p = piglin();
    p.populate_default_equipment_slots_with_roll(&rolls, 4);
    assert!(p.mob_entity.equipment.main_hand.tags.piglin_loved);
    assert!(p.mob_entity.equipment.head.tags.piglin_safe_armor);
    assert!(p.mob_entity.equipment.chest.tags.piglin_loved);
    assert!(PiglinAi::is_wearing_safe_armor(&p.mob_entity.equipment));
    let mut q = piglin();
    q.populate_default_equipment_slots_with_roll(&EquipmentRolls { crossbow: true, ..rolls }, 4);
    assert!(q.mob_entity.equipment.main_hand.tags.piglin_preferred_weapon);
    assert!(!q.mob_entity.equipment.main_hand.tags.piglin_loved);
}

#[test]
fn a_blow_makes_a_piglin_store_what_it_held() {
    let mut p = piglin();
    p.ambient_sound_time = 30;
    p.hold_in_off_hand(ItemStack::new(1, ItemKind::Quartz));
    p.is_dancing = true;
    let player = Attacker { is_living: true, kind: EntityKind::Player };
    let (dropped, effects) = p.on_damage(false, Some(&player), false);
    assert!(dropped.is_empty());
    assert_eq!(p.ambient_sound_time, -80);
    assert!(!p.is_holding_item_in_off_hand());
    assert!(!p.is_dancing);
    assert!(p.is_admiring_disabled());
    assert_eq!(p.inventory.len(), 1);
    assert_eq!(p.inventory[0].item, ItemKind::Quartz);
    assert!(matches!(effects.as_slice(), [PiglinEffect::ThrowTowardRandomPos(s)] if s.is_empty()));
}

#[test]
fn a_piglin_that_stops_admiring_stores_what_it_cannot_barter() {
    let mut p = piglin();
    p.hold_in_off_hand(ItemStack::new(1, ItemKind::Quartz));
    let effects = p.stop_holding_item_if_no_longer_admiring(false);
    assert_eq!(p.inventory.len(), 1);
    assert_eq!(effects.len(), 1);
    assert!(!p.is_holding_item_in_off_hand());
}
