//! The piglin: its timers, flags and inventory, and what it does with the gold it is given.
use vstd::prelude::*;

use super::inventory::{INVENTORY_SIZE, added, fill, lemma_fill_done, lemma_fill_frame};
use super::piglin_ai::{PiglinAi, PiglinSound, activity_sound, is_barter_outcome, loved};
use crate::entity::{EntityId, EntityKind};
use crate::item::{Equipment, EquipmentSlot, ItemKind, ItemStack, ItemTags};
use crate::entity::ai::util::random_pos::total_tester;
use crate::random::random_below;
use crate::world::BlockPos;

verus! {

#[derive(Clone, Copy, Debug, PartialEq, Eq, Structural)]
pub enum PiglinActivity {
    Idle,
    AdmireItem,
    Fight,
    Celebrate,
}

/// The goals a piglin runs, by kind.
#[derive(Clone, Copy, Debug, PartialEq, Eq, Structural)]
pub enum GoalKind {
    Swim,
    /// Opens doors; closes them behind when `close_door`.
    OpenDoor { close_door: bool },
    GoToWantedItem,
    /// Melee attack, pausing when the target is out of sight.
    MeleeAttack,
    RangedCrossbowAttack,
    WanderAround,
    LookAtPlayer,
    RandomLookAround,
    /// Targets whoever hurt it; visibility checked when `check_visibility`.
    Revenge { check_visibility: bool },
    /// Targets players not wearing piglin-safe armour, checking visibility.
    TargetPlayerWithoutSafeArmor,
    TargetWitherSkeleton,
    TargetWither,
    /// Targets hoglins while it is an adult allowed to hunt.
    TargetHoglin,
}

/// A goal and its priority; a lower number wins.
#[derive(Clone, Copy, Debug, PartialEq, Eq, Structural)]
pub struct PrioritizedGoal {
    pub priority: u8,
    pub goal: GoalKind,
}

/// What the piglin's logic reads and changes of the mob it is: its equipment, its target and
/// its goals.
pub struct MobState {
    pub equipment: Equipment,
    /// The mob has an attack target.
    pub has_target: bool,
    pub can_pick_up_loot: bool,
    pub no_ai: bool,
    pub persistence_required: bool,
    pub goals: Vec<PrioritizedGoal>,
    pub target_goals: Vec<PrioritizedGoal>,
}

/// A brain memory that expires; its time to live is saved with the piglin.
#[derive(Clone, Copy, Debug, PartialEq, Eq, Structural)]
pub enum ExpiringMemory {
    AdmiringItem,
    AdmiringDisabled,
    HuntedRecently,
}

impl ExpiringMemory {
    /// The memory's key in saved data.
    pub fn key(&self) -> (r: &'static str)
        ensures
            r@ == match self {
                ExpiringMemory::AdmiringItem => "minecraft:admiring_item"@,
                ExpiringMemory::AdmiringDisabled => "minecraft:admiring_disabled"@,
                ExpiringMemory::HuntedRecently => "minecraft:hunted_recently"@,
            },
    {
        match self {
            ExpiringMemory::AdmiringItem => "minecraft:admiring_item",
            ExpiringMemory::AdmiringDisabled => "minecraft:admiring_disabled",
            ExpiringMemory::HuntedRecently => "minecraft:hunted_recently",
        }
    }
}

/// What the piglin asks of the world around it.
pub enum PiglinEffect {
    /// Drop the stack at the piglin's feet.
    SpawnAtLocation(ItemStack),
    /// Throw the stack toward a random spot nearby (after a swing of the off hand).
    ThrowTowardRandomPos(ItemStack),
    /// Throw the stack toward the nearest visible player, or a random spot when none is seen.
    Throw(ItemStack),
    /// Fire the barter event for `input` and, unless a plugin cancels it, throw its outcome as
    /// `Throw` does.
    Barter { input: ItemStack, outcome: Vec<ItemStack> },
    /// Stop walking.
    StopWalking,
}

/// The piglin flags synced to clients.
#[derive(Clone, Copy, Debug, PartialEq, Eq, Structural)]
pub enum PiglinFlag {
    ImmuneToZombification,
    Baby,
    ChargingCrossbow,
    Dancing,
}

/// The piglin's saved data.
pub struct PiglinNbt {
    /// The expiring brain memories that are set, with their time to live.
    pub memories: Vec<(ExpiringMemory, i64)>,
    pub immune_to_zombification: Option<bool>,
    pub time_in_overworld: Option<i32>,
    pub is_baby: Option<bool>,
    pub cannot_hunt: Option<bool>,
    pub is_charging_crossbow: Option<bool>,
    pub is_dancing: Option<bool>,
    pub inventory: Option<Vec<ItemStack>>,
}

/// What turning into a zombified piglin asks of the world. The world spawns a mob of kind
/// `spawn` where the piglin stands, with the piglin's rotation, head rotation, velocity, health
/// and custom name, puts `equipment` on it slot for slot, and removes the piglin.
pub struct Conversion {
    /// Play the conversion sound.
    pub play_sound: bool,
    /// The stacks to drop where the piglin stands.
    pub drops: Vec<ItemStack>,
    /// The kind of the mob that takes the piglin's place.
    pub spawn: EntityKind,
    /// What the new mob wears and holds.
    pub equipment: Equipment,
}

/// What the world asks of the piglin after the timers of a tick have run.
pub struct PiglinTickStep {
    /// Turn into a zombified piglin now.
    pub convert: bool,
    /// Refresh the sensors (wanted item, visible player, repellent) this tick.
    pub scan_sensors: bool,
    /// The ambient sound to play, if its time has come.
    pub ambient_sound: Option<PiglinSound>,
}

/// What the piglin's tick reads of the world.
#[derive(Clone, Copy, Debug, PartialEq, Eq, Structural)]
pub struct PiglinTickContext {
    /// Alive with health left.
    pub healthy: bool,
    /// The dimension turns piglins into zombified piglins.
    pub piglins_zombify: bool,
    /// The world's age plus the piglin's entity id; the sensors run when it is a multiple of
    /// the scan interval.
    pub sensor_clock: i64,
    /// What the nearest visible player holds, if one is seen.
    pub nearest_visible_player: Option<Equipment>,
}

/// Who hurt the piglin.
#[derive(Clone, Copy, Debug, PartialEq, Eq, Structural)]
pub struct Attacker {
    pub is_living: bool,
    pub kind: EntityKind,
}

/// The chances drawn for the equipment of a new adult piglin.
#[derive(Clone, Copy, Debug, PartialEq, Eq, Structural)]
pub struct EquipmentRolls {
    /// The one-in-two chance of a crossbow came up.
    pub crossbow: bool,
    /// The one-in-ten chance of a golden helmet came up.
    pub helmet: bool,
    /// The one-in-ten chance of a golden chestplate came up.
    pub chestplate: bool,
    /// The one-in-ten chance of golden leggings came up.
    pub leggings: bool,
    /// The one-in-ten chance of golden boots came up.
    pub boots: bool,
}

/// The weapon of a new adult piglin: a crossbow when that chance came up, else a golden spear
/// when `spear_roll` (drawn in `0..10`) is 0, else a golden sword.
pub open spec fn default_weapon(crossbow: bool, spear_roll: int) -> ItemKind {
    if crossbow {
        ItemKind::Crossbow
    } else if spear_roll == 0 {
        ItemKind::GoldenSpear
    } else {
        ItemKind::GoldenSword
    }
}

/// The piglin tags of the gear a new piglin is given: golden armour is loved and safe to wear
/// among piglins, a golden weapon is loved, and a crossbow is a preferred weapon.
pub open spec fn gear_tags(item: ItemKind) -> ItemTags {
    match item {
        ItemKind::Crossbow => ItemTags { piglin_preferred_weapon: true, ..ItemTags::untagged() },
        ItemKind::GoldenSword | ItemKind::GoldenSpear => ItemTags {
            piglin_loved: true,
            ..ItemTags::untagged()
        },
        ItemKind::GoldenHelmet | ItemKind::GoldenChestplate | ItemKind::GoldenLeggings
        | ItemKind::GoldenBoots => ItemTags {
            piglin_loved: true,
            piglin_safe_armor: true,
            ..ItemTags::untagged()
        },
        _ => ItemTags::untagged(),
    }
}

/// One piece of `item` as a new piglin gets it, with its tags.
pub open spec fn gear_spec(item: ItemKind) -> ItemStack {
    ItemStack { tags: gear_tags(item), ..ItemStack::of_spec(1, item) }
}

/// One piece of `item`, tagged as `gear_tags` says.
fn gear(item: ItemKind) -> (r: ItemStack)
    ensures
        r == gear_spec(item),
{
    let mut stack = ItemStack::new(1, item);
    let mut tags = ItemTags::none();
    match item {
        ItemKind::Crossbow => {
            tags.piglin_preferred_weapon = true;
        },
        ItemKind::GoldenSword | ItemKind::GoldenSpear => {
            tags.piglin_loved = true;
        },
        ItemKind::GoldenHelmet | ItemKind::GoldenChestplate | ItemKind::GoldenLeggings
        | ItemKind::GoldenBoots => {
            tags.piglin_loved = true;
            tags.piglin_safe_armor = true;
        },
        _ => {},
    }
    stack.tags = tags;
    stack
}

/// `equipment` with `item` put in `slot` when `chance` came up.
pub open spec fn put_if(equipment: Equipment, chance: bool, slot: EquipmentSlot, item: ItemKind) -> Equipment {
    if chance {
        equipment.set_spec(slot, gear_spec(item))
    } else {
        equipment
    }
}

/// The equipment of a new adult piglin that wore `equipment` before.
pub open spec fn default_equipment(equipment: Equipment, rolls: EquipmentRolls, spear_roll: int) -> Equipment {
    let armed = equipment.set_spec(
        EquipmentSlot::MainHand,
        gear_spec(default_weapon(rolls.crossbow, spear_roll)),
    );
    let with_head = put_if(armed, rolls.helmet, EquipmentSlot::Head, ItemKind::GoldenHelmet);
    let with_chest = put_if(with_head, rolls.chestplate, EquipmentSlot::Chest, ItemKind::GoldenChestplate);
    let with_legs = put_if(with_chest, rolls.leggings, EquipmentSlot::Legs, ItemKind::GoldenLeggings);
    put_if(with_legs, rolls.boots, EquipmentSlot::Feet, ItemKind::GoldenBoots)
}

/// Puts the default weapon and the armour whose chances came up in `equipment`.
fn equip_default(equipment: Equipment, rolls: &EquipmentRolls, spear_roll: i32) -> (r: Equipment)
    ensures
        r == default_equipment(equipment, *rolls, spear_roll as int),
{
    let mut e = equipment;
    let weapon = if rolls.crossbow {
        ItemKind::Crossbow
    } else if spear_roll == 0 {
        ItemKind::GoldenSpear
    } else {
        ItemKind::GoldenSword
    };
    e.put(EquipmentSlot::MainHand, gear(weapon));
    if rolls.helmet {
        e.put(EquipmentSlot::Head, gear(ItemKind::GoldenHelmet));
    }
    if rolls.chestplate {
        e.put(EquipmentSlot::Chest, gear(ItemKind::GoldenChestplate));
    }
    if rolls.leggings {
        e.put(EquipmentSlot::Legs, gear(ItemKind::GoldenLeggings));
    }
    if rolls.boots {
        e.put(EquipmentSlot::Feet, gear(ItemKind::GoldenBoots));
    }
    e
}

/// How many items a piglin takes from `stack`: gold nuggets all at once, anything else one at a
/// time.
pub open spec fn pick_up_count_spec(stack: ItemStack) -> u8 {
    if stack.item == ItemKind::GoldNugget {
        stack.item_count
    } else if stack.item_count < 1 {
        stack.item_count
    } else {
        1
    }
}

/// The ambient sound clock one tick later: it counts up, wrapping at the end of `i32`.
pub open spec fn next_clock(time: i32) -> i32 {
    if time == i32::MAX {
        i32::MIN
    } else {
        (time + 1) as i32
    }
}

pub struct PiglinEntity {
    pub mob_entity: MobState,
    pub immune_to_zombification: bool,
    pub time_in_overworld: i32,
    pub is_baby: bool,
    pub cannot_hunt: bool,
    pub is_charging_crossbow: bool,
    pub is_dancing: bool,
    pub inventory: Vec<ItemStack>,
    pub admire_timer: i32,
    pub admiring_disabled_timer: i32,
    pub eat_cooldown_timer: i32,
    pub celebration_timer: i32,
    pub hunt_cooldown_timer: i32,
    pub disable_walk_to_admire_timer: i32,
    /// How long the piglin has tried to reach the item it admires; -1 while it has not.
    pub time_trying_to_reach_item: i32,
    pub admiring_item: Option<ItemStack>,
    pub nearest_wanted_item: Option<EntityId>,
    pub nearest_visible_player: Option<EntityId>,
    pub near_repellent: bool,
    pub activity: PiglinActivity,
    pub ambient_sound_time: i32,
}

/// The goals of a new piglin, in the order they are added.
pub open spec fn piglin_goals() -> Seq<PrioritizedGoal> {
    seq![
        PrioritizedGoal { priority: 0, goal: GoalKind::Swim },
        PrioritizedGoal { priority: 1, goal: GoalKind::OpenDoor { close_door: true } },
        PrioritizedGoal { priority: 2, goal: GoalKind::GoToWantedItem },
        PrioritizedGoal { priority: 3, goal: GoalKind::MeleeAttack },
        PrioritizedGoal { priority: 4, goal: GoalKind::RangedCrossbowAttack },
        PrioritizedGoal { priority: 5, goal: GoalKind::WanderAround },
        PrioritizedGoal { priority: 6, goal: GoalKind::LookAtPlayer },
        PrioritizedGoal { priority: 7, goal: GoalKind::RandomLookAround },
    ]
}

/// The target goals of a new piglin, in the order they are added.
pub open spec fn piglin_target_goals() -> Seq<PrioritizedGoal> {
    seq![
        PrioritizedGoal { priority: 1, goal: GoalKind::Revenge { check_visibility: true } },
        PrioritizedGoal { priority: 2, goal: GoalKind::TargetPlayerWithoutSafeArmor },
        PrioritizedGoal { priority: 3, goal: GoalKind::TargetWitherSkeleton },
        PrioritizedGoal { priority: 3, goal: GoalKind::TargetWither },
        PrioritizedGoal { priority: 4, goal: GoalKind::TargetHoglin },
    ]
}

impl PiglinEntity {
    pub const CONVERSION_TIME: i32 = 300;

    pub const XP_REWARD: u32 = 5;

    pub const AMBIENT_SOUND_INTERVAL: i32 = 80;

    /// The inventory holds at most eight stacks.
    pub open spec fn wf(&self) -> bool {
        self.inventory@.len() <= INVENTORY_SIZE
    }

    /// A new piglin: nothing remembered, nothing carried, able to pick up loot, with its goals.
    pub fn new(equipment: Equipment) -> (r: Self)
        ensures
            r.wf(),
            r.mob_entity.equipment == equipment,
            !r.mob_entity.has_target,
            r.mob_entity.can_pick_up_loot,
            !r.mob_entity.no_ai,
            !r.mob_entity.persistence_required,
            r.mob_entity.goals@ == piglin_goals(),
            r.mob_entity.target_goals@ == piglin_target_goals(),
            !r.immune_to_zombification && r.time_in_overworld == 0 && !r.is_baby && !r.cannot_hunt,
            !r.is_charging_crossbow && !r.is_dancing,
            r.inventory@.len() == 0,
            r.admire_timer == 0 && r.admiring_disabled_timer == 0 && r.eat_cooldown_timer == 0,
            r.celebration_timer == 0 && r.hunt_cooldown_timer == 0,
            r.disable_walk_to_admire_timer == 0 && r.time_trying_to_reach_item == -1,
            r.admiring_item is None && r.nearest_wanted_item is None,
            r.nearest_visible_player is None && !r.near_repellent,
            r.activity == PiglinActivity::Idle && r.ambient_sound_time == 0,
    {
        let mut goals: Vec<PrioritizedGoal> = Vec::new();
        goals.push(PrioritizedGoal { priority: 0, goal: GoalKind::Swim });
        goals.push(PrioritizedGoal { priority: 1, goal: GoalKind::OpenDoor { close_door: true } });
        goals.push(PrioritizedGoal { priority: 2, goal: GoalKind::GoToWantedItem });
        goals.push(PrioritizedGoal { priority: 3, goal: GoalKind::MeleeAttack });
        goals.push(PrioritizedGoal { priority: 4, goal: GoalKind::RangedCrossbowAttack });
        goals.push(PrioritizedGoal { priority: 5, goal: GoalKind::WanderAround });
        goals.push(PrioritizedGoal { priority: 6, goal: GoalKind::LookAtPlayer });
        goals.push(PrioritizedGoal { priority: 7, goal: GoalKind::RandomLookAround });
        let mut target_goals: Vec<PrioritizedGoal> = Vec::new();
        target_goals.push(
            PrioritizedGoal { priority: 1, goal: GoalKind::Revenge { check_visibility: true } },
        );
        target_goals.push(PrioritizedGoal { priority: 2, goal: GoalKind::TargetPlayerWithoutSafeArmor });
        target_goals.push(PrioritizedGoal { priority: 3, goal: GoalKind::TargetWitherSkeleton });
        target_goals.push(PrioritizedGoal { priority: 3, goal: GoalKind::TargetWither });
        target_goals.push(PrioritizedGoal { priority: 4, goal: GoalKind::TargetHoglin });
        assert(goals@ == piglin_goals());
        assert(target_goals@ == piglin_target_goals());
        let mob_entity = MobState {
            equipment,
            has_target: false,
            can_pick_up_loot: true,
            no_ai: false,
            persistence_required: false,
            goals,
            target_goals,
        };
        PiglinEntity {
            mob_entity,
            immune_to_zombification: false,
            time_in_overworld: 0,
            is_baby: false,
            cannot_hunt: false,
            is_charging_crossbow: false,
            is_dancing: false,
            inventory: Vec::new(),
            admire_timer: 0,
            admiring_disabled_timer: 0,
            eat_cooldown_timer: 0,
            celebration_timer: 0,
            hunt_cooldown_timer: 0,
            disable_walk_to_admire_timer: 0,
            time_trying_to_reach_item: -1i32,
            admiring_item: None,
            nearest_wanted_item: None,
            nearest_visible_player: None,
            near_repellent: false,
            activity: PiglinActivity::Idle,
            ambient_sound_time: 0,
        }
    }

    /// The piglin with the equipment a new one gets: none for a baby, else a weapon and golden
    /// armour as `rolls` and `spear_roll` decide.
    pub open spec fn equipped_by_default(self, rolls: EquipmentRolls, spear_roll: int) -> PiglinEntity {
        if self.is_baby {
            self
        } else {
            PiglinEntity {
                mob_entity: MobState {
                    equipment: default_equipment(self.mob_entity.equipment, rolls, spear_roll),
                    ..self.mob_entity
                },
                ..self
            }
        }
    }

    /// Equips a new piglin; `spear_roll` is the draw in `0..10` that picks a golden spear over
    /// a sword when no crossbow came up.
    pub fn populate_default_equipment_slots_with_roll(&mut self, rolls: &EquipmentRolls, spear_roll: i32)
        ensures
            *final(self) == old(self).equipped_by_default(*rolls, spear_roll as int),
    {
        if !self.is_baby {
            self.mob_entity.equipment = equip_default(self.mob_entity.equipment, rolls, spear_roll);
        }
    }

    /// Equips a new piglin: a baby gets nothing; an adult gets a crossbow when that chance came
    /// up, else a golden spear one time in ten or a golden sword, and each golden armour piece
    /// whose chance came up.
    pub fn populate_default_equipment_slots(&mut self, rolls: &EquipmentRolls)
        ensures
            exists|spear_roll: int|
                0 <= spear_roll < 10 && *final(self) == old(self).equipped_by_default(*rolls, spear_roll),
    {
        let spear_roll = if self.is_baby || rolls.crossbow {
            0
        } else {
            random_below(10)
        };
        self.populate_default_equipment_slots_with_roll(rolls, spear_roll);
    }

    pub fn is_immune_to_zombification(&self) -> (r: bool)
        ensures
            r == self.immune_to_zombification,
    {
        self.immune_to_zombification
    }

    /// Sets the flag; the change is synced to clients.
    pub fn set_immune_to_zombification(&mut self, immune: bool)
        ensures
            *final(self) == (PiglinEntity { immune_to_zombification: immune, ..*old(self) }),
    {
        self.immune_to_zombification = immune;
    }

    /// Turns into a zombified piglin over time, in a dimension where piglins do.
    pub fn is_converting(&self, piglins_zombify: bool) -> (r: bool)
        ensures
            r == (!self.immune_to_zombification && !self.mob_entity.no_ai && piglins_zombify),
    {
        !self.is_immune_to_zombification() && !self.mob_entity.no_ai && piglins_zombify
    }

    pub fn is_baby(&self) -> (r: bool)
        ensures
            r == self.is_baby,
    {
        self.is_baby
    }

    pub fn is_adult(&self) -> (r: bool)
        ensures
            r == !self.is_baby,
    {
        !self.is_baby()
    }

    /// Sets the flag; clients see it and the hitbox takes the baby or adult size.
    pub fn set_baby(&mut self, baby: bool)
        ensures
            *final(self) == (PiglinEntity { is_baby: baby, ..*old(self) }),
    {
        self.is_baby = baby;
    }

    pub fn is_charging_crossbow(&self) -> (r: bool)
        ensures
            r == self.is_charging_crossbow,
    {
        self.is_charging_crossbow
    }

    /// Sets the flag; the change is synced to clients.
    pub fn set_charging_crossbow(&mut self, is_charging: bool)
        ensures
            *final(self) == (PiglinEntity { is_charging_crossbow: is_charging, ..*old(self) }),
    {
        self.is_charging_crossbow = is_charging;
    }

    pub fn is_dancing(&self) -> (r: bool)
        ensures
            r == self.is_dancing,
    {
        self.is_dancing
    }

    /// Sets the flag; the change is synced to clients.
    pub fn set_dancing(&mut self, is_dancing: bool)
        ensures
            *final(self) == (PiglinEntity { is_dancing, ..*old(self) }),
    {
        self.is_dancing = is_dancing;
    }

    pub open spec fn can_hunt_spec(&self) -> bool {
        !self.cannot_hunt && self.hunt_cooldown_timer <= 0
    }

    /// Allowed to hunt and not hunted recently.
    pub fn can_hunt(&self) -> (r: bool)
        ensures
            r == self.can_hunt_spec(),
    {
        !self.cannot_hunt && self.hunt_cooldown_timer <= 0
    }

    pub fn set_cannot_hunt(&mut self, cannot_hunt: bool)
        ensures
            *final(self) == (PiglinEntity { cannot_hunt, ..*old(self) }),
    {
        self.cannot_hunt = cannot_hunt;
    }

    pub open spec fn is_admiring_spec(&self) -> bool {
        self.admire_timer > 0
    }

    pub fn is_admiring(&self) -> (r: bool)
        ensures
            r == self.is_admiring_spec(),
    {
        self.admire_timer > 0
    }

    pub fn is_admiring_disabled(&self) -> (r: bool)
        ensures
            r == (self.admiring_disabled_timer > 0),
    {
        self.admiring_disabled_timer > 0
    }

    pub fn has_eaten_recently(&self) -> (r: bool)
        ensures
            r == (self.eat_cooldown_timer > 0),
    {
        self.eat_cooldown_timer > 0
    }

    pub fn is_walk_to_admire_disabled(&self) -> (r: bool)
        ensures
            r == (self.disable_walk_to_admire_timer > 0),
    {
        self.disable_walk_to_admire_timer > 0
    }

    pub fn has_attack_target(&self) -> (r: bool)
        ensures
            r == self.mob_entity.has_target,
    {
        self.mob_entity.has_target
    }

    pub fn is_near_repellent(&self) -> (r: bool)
        ensures
            r == self.near_repellent,
    {
        self.near_repellent
    }

    pub fn off_hand_item(&self) -> (r: ItemStack)
        ensures
            r == self.mob_entity.equipment.off_hand,
    {
        self.mob_entity.equipment.off_hand
    }

    pub fn main_hand_item(&self) -> (r: ItemStack)
        ensures
            r == self.mob_entity.equipment.main_hand,
    {
        self.mob_entity.equipment.main_hand
    }

    pub fn is_holding_item_in_off_hand(&self) -> (r: bool)
        ensures
            r == !self.mob_entity.equipment.off_hand.is_empty_spec(),
    {
        !self.off_hand_item().is_empty()
    }

    /// A stack of `item` fits: a free slot, or a stack of the same item with room left.
    pub open spec fn can_add_to_inventory_spec(&self, item: ItemStack) -> bool {
        ||| self.inventory@.len() < INVENTORY_SIZE
        ||| exists|i: int|
            0 <= i < self.inventory@.len() && (#[trigger] self.inventory@[i]).same_item(item)
                && self.inventory@[i].item_count < self.inventory@[i].max_stack_size
    }

    pub fn can_add_to_inventory(&self, item: &ItemStack) -> (r: bool)
        ensures
            r == self.can_add_to_inventory_spec(*item),
    {
        if self.inventory.len() < INVENTORY_SIZE {
            return true;
        }
        let mut i: usize = 0;
        while i < self.inventory.len()
            invariant
                0 <= i <= self.inventory@.len(),
                forall|j: int|
                    0 <= j < i ==> !((#[trigger] self.inventory@[j]).same_item(*item)
                        && self.inventory@[j].item_count < self.inventory@[j].max_stack_size),
            decreases self.inventory@.len() - i,
        {
            let slot = &self.inventory[i];
            if slot.are_items_and_components_equal(item) && slot.item_count < slot.max_stack_size {
                return true;
            }
            i += 1;
        }
        false
    }

    /// Puts `item` away: it first tops up the stacks of the same item, in slot order, then
    /// takes a free slot. Returns what did not fit.
    pub fn add_to_inventory(&mut self, item: ItemStack) -> (r: Option<ItemStack>)
        requires
            old(self).wf(),
        ensures
            final(self).wf(),
            (final(self).inventory@, r) == added(old(self).inventory@, item),
            *final(self) == (PiglinEntity { inventory: final(self).inventory, ..*old(self) }),
    {
        if item.is_empty() {
            return None;
        }
        let ghost old_inv = self.inventory@;
        let mut remaining = item;
        let mut i: usize = 0;
        while i < self.inventory.len()
            invariant
                0 <= i <= self.inventory@.len(),
                self.inventory@.len() == old_inv.len(),
                old_inv.len() <= INVENTORY_SIZE,
                self.inventory@ == fill(old_inv, item, i as nat).0,
                remaining == item.with_count(fill(old_inv, item, i as nat).1),
                fill(old_inv, item, i as nat).1 > 0,
                !item.is_empty_spec(),
                old_inv == old(self).inventory@,
                *self == (PiglinEntity { inventory: self.inventory, ..*old(self) }),
            decreases self.inventory@.len() - i,
        {
            proof {
                lemma_fill_frame(old_inv, item, i as nat);
            }
            let mut slot = self.inventory[i];
            if slot.are_items_and_components_equal(&remaining) {
                let space: u8 = if slot.max_stack_size >= slot.item_count {
                    slot.max_stack_size - slot.item_count
                } else {
                    0
                };
                let moved: u8 = if remaining.item_count < space {
                    remaining.item_count
                } else {
                    space
                };
                slot.item_count = slot.item_count + moved;
                remaining.item_count = remaining.item_count - moved;
                self.inventory.set(i, slot);
                assert(fill(old_inv, item, (i + 1) as nat).1 == remaining.item_count);
                assert(self.inventory@ == fill(old_inv, item, (i + 1) as nat).0);
                if remaining.is_empty() {
                    proof {
                        lemma_fill_done(old_inv, item, (i + 1) as nat, old_inv.len());
                        assert(fill(old_inv, item, old_inv.len()).1 == 0);
                        assert(self.inventory@ == fill(old_inv, item, old_inv.len()).0);
                    }
                    return None;
                }
            }
            i += 1;
        }
        if self.inventory.len() < INVENTORY_SIZE {
            self.inventory.push(remaining);
            return None;
        }
        Some(remaining)
    }

    /// Babies prefer no weapons; adults the piglin-preferred weapons (crossbows and golden
    /// weapons).
    pub fn get_preferred_weapon_type(&self) -> (r: bool)
        ensures
            r == !self.is_baby,
    {
        !self.is_baby()
    }

    /// A stack the piglin wants to hold: a loved item, or for an adult a preferred weapon.
    pub open spec fn is_wanted_spec(&self, stack: ItemStack) -> bool {
        stack.tags.piglin_loved || (!self.is_baby && stack.tags.piglin_preferred_weapon)
    }

    pub open spec fn can_replace_current_item_spec(
        &self,
        new_item: ItemStack,
        current_item: ItemStack,
        generic_replace: bool,
    ) -> bool {
        !current_item.binding_curse && (self.is_wanted_spec(new_item) && !self.is_wanted_spec(
            current_item,
        ) || (self.is_wanted_spec(new_item) || !self.is_wanted_spec(current_item))
            && generic_replace)
    }

    /// Whether `new_item` replaces `current_item`: never a cursed item; a wanted item always
    /// replaces an unwanted one; otherwise the ordinary mob rules decide (`generic_replace`),
    /// unless that would swap a wanted item for an unwanted one.
    pub fn can_replace_current_item(
        &self,
        new_item: &ItemStack,
        current_item: &ItemStack,
        generic_replace: bool,
    ) -> (r: bool)
        ensures
            r == self.can_replace_current_item_spec(*new_item, *current_item, generic_replace),
    {
        if current_item.binding_curse {
            return false;
        }
        let preferred = self.get_preferred_weapon_type();
        let new_wanted = PiglinAi::is_loved_item(new_item) || (preferred
            && new_item.tags.piglin_preferred_weapon);
        let current_wanted = PiglinAi::is_loved_item(current_item) || (preferred
            && current_item.tags.piglin_preferred_weapon);
        new_wanted && !current_wanted || (new_wanted || !current_wanted) && generic_replace
    }

    pub open spec fn can_replace_current_item_for_spec(&self, new_item: ItemStack, generic_replace: bool) -> bool {
        self.can_replace_current_item_spec(
            new_item,
            self.mob_entity.equipment.get_spec(new_item.slot),
            generic_replace,
        )
    }

    /// Whether `new_item` replaces what the piglin holds in the item's slot.
    pub fn can_replace_current_item_for(&self, new_item: &ItemStack, generic_replace: bool) -> (r: bool)
        ensures
            r == self.can_replace_current_item_for_spec(*new_item, generic_replace),
    {
        let current = self.mob_entity.equipment.get(new_item.slot);
        self.can_replace_current_item(new_item, &current, generic_replace)
    }

    pub fn get_base_experience_reward(&self) -> (r: u32)
        ensures
            r == Self::XP_REWARD,
    {
        Self::XP_REWARD
    }

    /// The piglin with `item` in its off hand, admired; kept loaded unless it is gold to barter.
    pub open spec fn holding_in_off_hand(self, item: ItemStack) -> PiglinEntity {
        PiglinEntity {
            mob_entity: MobState {
                equipment: Equipment { off_hand: item, ..self.mob_entity.equipment },
                persistence_required: self.mob_entity.persistence_required || item.item
                    != ItemKind::GoldIngot,
                ..self.mob_entity
            },
            admiring_item: Some(item),
            ..self
        }
    }

    /// What was in the off hand before, when something was.
    pub open spec fn dropped_off_hand(self) -> Option<ItemStack> {
        if self.mob_entity.equipment.off_hand.is_empty_spec() {
            None
        } else {
            Some(self.mob_entity.equipment.off_hand)
        }
    }

    /// Puts `item` in the off hand; returns what was held there before, which drops.
    pub fn hold_in_off_hand(&mut self, item: ItemStack) -> (r: Option<ItemStack>)
        ensures
            r == old(self).dropped_off_hand(),
            *final(self) == old(self).holding_in_off_hand(item),
    {
        let dropped = if self.is_holding_item_in_off_hand() {
            Some(self.off_hand_item())
        } else {
            None
        };
        let keep_loaded = !PiglinAi::is_barter_currency(&item);
        self.admiring_item = Some(item);
        self.mob_entity.equipment.off_hand = item;
        if keep_loaded {
            self.mob_entity.persistence_required = true;
        }
        dropped
    }

    /// Puts `item` in the main hand, for good: the piglin stays loaded.
    pub fn hold_in_main_hand(&mut self, item: ItemStack)
        ensures
            *final(self) == (PiglinEntity {
                mob_entity: MobState {
                    equipment: Equipment { main_hand: item, ..old(self).mob_entity.equipment },
                    persistence_required: true,
                    ..old(self).mob_entity
                },
                ..*old(self)
            }),
    {
        self.mob_entity.equipment.main_hand = item;
        self.mob_entity.persistence_required = true;
    }

    pub fn admire_gold_item(&mut self)
        ensures
            *final(self) == (PiglinEntity { admire_timer: PiglinAi::ADMIRE_DURATION, ..*old(self) }),
    {
        self.admire_timer = PiglinAi::ADMIRE_DURATION;
    }

    /// Takes `item` in the off hand and admires it, standing still.
    pub fn start_admiring(&mut self, item: ItemStack) -> (r: Vec<PiglinEffect>)
        ensures
            *final(self) == (PiglinEntity {
                admire_timer: PiglinAi::ADMIRE_DURATION,
                ..old(self).holding_in_off_hand(item)
            }),
            r@ == match old(self).dropped_off_hand() {
                Some(d) => seq![PiglinEffect::SpawnAtLocation(d), PiglinEffect::StopWalking],
                None => seq![PiglinEffect::StopWalking],
            },
    {
        let mut effects = Vec::new();
        if let Some(dropped) = self.hold_in_off_hand(item) {
            effects.push(PiglinEffect::SpawnAtLocation(dropped));
        }
        self.admire_gold_item();
        effects.push(PiglinEffect::StopWalking);
        effects
    }

    /// Puts `item` in the inventory and throws what did not fit toward a random spot; the
    /// throw (of an empty stack, when all fit) swings the off hand either way.
    pub fn put_in_inventory(&mut self, item: ItemStack) -> (r: PiglinEffect)
        requires
            old(self).wf(),
        ensures
            final(self).wf(),
            final(self).inventory@ == added(old(self).inventory@, item).0,
            r == PiglinEffect::ThrowTowardRandomPos(
                match added(old(self).inventory@, item).1 {
                    Some(rest) => rest,
                    None => ItemStack::empty_spec(),
                },
            ),
            *final(self) == (PiglinEntity { inventory: final(self).inventory, ..*old(self) }),
    {
        let remainder = match self.add_to_inventory(item) {
            Some(rest) => rest,
            None => ItemStack::empty(),
        };
        PiglinEffect::ThrowTowardRandomPos(remainder)
    }

    /// The nearest wanted item the sensors found, while it is alive.
    pub fn nearest_wanted_item(&self, alive: bool) -> (r: Option<EntityId>)
        ensures
            r == (if alive {
                self.nearest_wanted_item
            } else {
                None
            }),
    {
        if alive {
            self.nearest_wanted_item
        } else {
            None
        }
    }

    /// The nearest visible player the sensors found, while it is alive.
    pub fn nearest_visible_player(&self, alive: bool) -> (r: Option<EntityId>)
        ensures
            r == (if alive {
                self.nearest_visible_player
            } else {
                None
            }),
    {
        if alive {
            self.nearest_visible_player
        } else {
            None
        }
    }

    /// An item entity holding `stack` is one the piglin goes for.
    pub fn wants_item_entity(&self, stack: &ItemStack, generic_replace: bool) -> (r: bool)
        ensures
            r == (!stack.is_empty_spec() && super::piglin_ai::wants_to_pickup_spec(
                self,
                *stack,
                generic_replace,
            )),
    {
        !stack.is_empty() && PiglinAi::wants_to_pickup(self, stack, generic_replace)
    }

    /// The piglin with its off hand emptied and nothing admired.
    pub open spec fn released(self) -> PiglinEntity {
        PiglinEntity {
            mob_entity: MobState {
                equipment: Equipment {
                    off_hand: ItemStack::empty_spec(),
                    ..self.mob_entity.equipment
                },
                ..self.mob_entity
            },
            admiring_item: None,
            ..self
        }
    }

    /// What is thrown when `item` goes into the inventory `inv`: what did not fit, or an empty
    /// stack.
    pub open spec fn leftover_throw(inv: Seq<ItemStack>, item: ItemStack) -> PiglinEffect {
        PiglinEffect::ThrowTowardRandomPos(
            match added(inv, item).1 {
                Some(rest) => rest,
                None => ItemStack::empty_spec(),
            },
        )
    }

    /// Letting go of the off hand item in this state leaves `after` and asks for `effects`, as
    /// `stop_holding_off_hand_item(bartering_enabled, equips)` does.
    pub open spec fn lets_go(
        self,
        bartering_enabled: bool,
        equips: bool,
        after: PiglinEntity,
        effects: Seq<PiglinEffect>,
    ) -> bool {
        let item = self.mob_entity.equipment.off_hand;
        let base = self.released();
        let barter = item.item == ItemKind::GoldIngot;
        if !self.is_baby {
            if bartering_enabled && barter {
                &&& after == base
                &&& effects.len() == 1
                &&& effects[0] matches PiglinEffect::Barter { input, outcome } && input == item
                    && is_barter_outcome(outcome@)
            } else if !barter && !equips {
                &&& after == (PiglinEntity { inventory: after.inventory, ..base })
                &&& after.inventory@ == added(base.inventory@, item).0
                &&& effects == seq![PiglinEntity::leftover_throw(base.inventory@, item)]
            } else {
                after == base && effects.len() == 0
            }
        } else if !equips {
            let main = self.mob_entity.equipment.main_hand;
            let holding = PiglinEntity {
                mob_entity: MobState {
                    equipment: Equipment { main_hand: item, ..base.mob_entity.equipment },
                    persistence_required: true,
                    ..base.mob_entity
                },
                ..base
            };
            if loved(main) {
                &&& after == (PiglinEntity {
                    inventory: after.inventory,
                    ..holding
                })
                &&& after.inventory@ == added(base.inventory@, main).0
                &&& effects == seq![PiglinEntity::leftover_throw(base.inventory@, main)]
            } else {
                after == holding && effects == seq![PiglinEffect::Throw(main)]
            }
        } else {
            after == base && effects.len() == 0
        }
    }

    /// Lets go of what the off hand holds. An adult barters a gold ingot (when bartering is on)
    /// and otherwise equips the item or stores it; a baby equips it, or else takes it in the
    /// main hand, storing a loved item held there and throwing anything else. `equips` is
    /// whether the mob's equipping rules take the item (the world applies that equip).
    #[verifier::rlimit(60)]
    pub fn stop_holding_off_hand_item(&mut self, bartering_enabled: bool, equips: bool) -> (r: Vec<
        PiglinEffect,
    >)
        requires
            old(self).wf(),
        ensures
            final(self).wf(),
            old(self).lets_go(bartering_enabled, equips, *final(self), r@),
    {
        let item = self.release_off_hand();
        let mut effects = Vec::new();
        if self.is_adult() {
            let is_barter = PiglinAi::is_barter_currency(&item);
            if bartering_enabled && is_barter {
                let outcome = PiglinAi::get_barter_response_items();
                effects.push(PiglinEffect::Barter { input: item, outcome });
            } else if !is_barter && !equips {
                effects.push(self.put_in_inventory(item));
            }
        } else if !equips {
            let main_hand = self.main_hand_item();
            let effect = if PiglinAi::is_loved_item(&main_hand) {
                self.put_in_inventory(main_hand)
            } else {
                PiglinEffect::Throw(main_hand)
            };
            self.hold_in_main_hand(item);
            effects.push(effect);
        }
        effects
    }

    /// Empties the off hand and forgets the admired item; returns what the off hand held.
    fn release_off_hand(&mut self) -> (r: ItemStack)
        ensures
            r == old(self).mob_entity.equipment.off_hand,
            *final(self) == old(self).released(),
    {
        let item = self.mob_entity.equipment.off_hand;
        self.mob_entity.equipment.off_hand = ItemStack::empty();
        self.admiring_item = None;
        item
    }

    /// The piglin calmed by a blow from `attacker`: no dancing, celebrating or admiring, and
    /// admiring disabled for a while after a player's blow.
    pub open spec fn calmed(self, attacker: Attacker) -> PiglinEntity {
        PiglinEntity {
            is_dancing: false,
            celebration_timer: 0,
            admire_timer: 0,
            admiring_disabled_timer: if attacker.kind == EntityKind::Player {
                PiglinAi::ADMIRING_DISABLED_DURATION
            } else {
                self.admiring_disabled_timer
            },
            ..self
        }
    }

    /// Being hurt by `attacker` in this state leaves `after` and asks for `effects`, as
    /// `was_hurt_by` does: nothing happens unless the attacker is a living entity other than a
    /// piglin; then the off hand item, if any, is let go of without bartering, and the piglin
    /// is calmed.
    pub open spec fn hurt_by(
        self,
        attacker: Attacker,
        equips: bool,
        after: PiglinEntity,
        effects: Seq<PiglinEffect>,
    ) -> bool {
        if !attacker.is_living || attacker.kind == EntityKind::Piglin {
            after == self && effects.len() == 0
        } else if self.mob_entity.equipment.off_hand.is_empty_spec() {
            after == self.calmed(attacker) && effects.len() == 0
        } else {
            exists|released: PiglinEntity|
                #[trigger] self.lets_go(false, equips, released, effects) && after == released.calmed(
                    attacker,
                )
        }
    }

    /// Getting hurt by another living entity than a piglin ends dancing, celebrating and
    /// admiring, and lets go of the off hand item (never bartering it). A player's blow also
    /// disables admiring for a while. `equips` is as in `stop_holding_off_hand_item`.
    pub fn was_hurt_by(&mut self, attacker: &Attacker, equips: bool) -> (r: Vec<PiglinEffect>)
        requires
            old(self).wf(),
        ensures
            final(self).wf(),
            old(self).hurt_by(*attacker, equips, *final(self), r@),
    {
        if !attacker.is_living || attacker.kind == EntityKind::Piglin {
            return Vec::new();
        }
        let effects = if self.is_holding_item_in_off_hand() {
            self.stop_holding_off_hand_item(false, equips)
        } else {
            Vec::new()
        };
        let ghost released = *self;
        self.set_dancing(false);
        self.celebration_timer = 0;
        self.admire_timer = 0;
        if attacker.kind == EntityKind::Player {
            self.admiring_disabled_timer = PiglinAi::ADMIRING_DISABLED_DURATION;
        }
        assert(*self == released.calmed(*attacker));
        effects
    }

    /// While admiring an item in the off hand, drops it and stops holding it.
    pub fn cancel_admiring(&mut self) -> (r: Option<ItemStack>)
        ensures
            old(self).admire_timer > 0 && !old(self).mob_entity.equipment.off_hand.is_empty_spec()
                ==> r == Some(old(self).mob_entity.equipment.off_hand) && *final(self) == old(self).released(),
            !(old(self).admire_timer > 0 && !old(self).mob_entity.equipment.off_hand.is_empty_spec()) ==> r is None && *final(self)
                == *old(self),
    {
        if self.is_admiring() && self.is_holding_item_in_off_hand() {
            let dropped = self.off_hand_item();
            self.mob_entity.equipment.off_hand = ItemStack::empty();
            self.admiring_item = None;
            Some(dropped)
        } else {
            None
        }
    }

    /// Empties the inventory and returns the stacks to drop: the non-empty ones, in slot
    /// order.
    pub fn drop_inventory(&mut self) -> (r: Vec<ItemStack>)
        ensures
            r@ == nonempty_stacks(old(self).inventory@),
            final(self).inventory@.len() == 0,
            *final(self) == (PiglinEntity { inventory: final(self).inventory, ..*old(self) }),
    {
        let mut items = Vec::new();
        let mut i: usize = 0;
        while i < self.inventory.len()
            invariant
                0 <= i <= self.inventory@.len(),
                self.inventory@ == old(self).inventory@,
                *self == *old(self),
                items@ == nonempty_stacks(self.inventory@.take(i as int)),
            decreases self.inventory@.len() - i,
        {
            let item = self.inventory[i];
            assert(self.inventory@.take(i + 1).drop_last() == self.inventory@.take(i as int));
            if !item.is_empty() {
                items.push(item);
            }
            i += 1;
        }
        assert(self.inventory@.take(self.inventory@.len() as int) == self.inventory@);
        self.inventory = Vec::new();
        items
    }

    pub open spec fn current_activity_spec(&self) -> PiglinActivity {
        if self.admire_timer > 0 {
            PiglinActivity::AdmireItem
        } else if self.mob_entity.has_target {
            PiglinActivity::Fight
        } else if self.celebration_timer > 0 {
            PiglinActivity::Celebrate
        } else {
            PiglinActivity::Idle
        }
    }

    /// Admiring first, then fighting, then celebrating.
    pub fn current_activity(&self) -> (r: PiglinActivity)
        ensures
            r == self.current_activity_spec(),
    {
        if self.is_admiring() {
            PiglinActivity::AdmireItem
        } else if self.has_attack_target() {
            PiglinActivity::Fight
        } else if self.celebration_timer > 0 {
            PiglinActivity::Celebrate
        } else {
            PiglinActivity::Idle
        }
    }

    /// Switches to the current activity; a change is announced with the new activity's sound.
    pub fn update_activity(&mut self, piglins_zombify: bool, nearest_visible_player: Option<&Equipment>) -> (r: Option<PiglinSound>)
        ensures
            *final(self) == (PiglinEntity {
                activity: old(self).current_activity_spec(),
                ..*old(self)
            }),
            old(self).activity == old(self).current_activity_spec() ==> r is None,
            old(self).activity != old(self).current_activity_spec() ==> r == Some(
                activity_sound(
                    old(self),
                    old(self).current_activity_spec(),
                    !old(self).immune_to_zombification && !old(self).mob_entity.no_ai
                        && piglins_zombify,
                    match nearest_visible_player {
                        Some(p) => loved(p.main_hand) || loved(p.off_hand),
                        None => false,
                    },
                ),
            ),
    {
        let new_activity = self.current_activity();
        if self.activity != new_activity {
            let sound = PiglinAi::get_sound_for_activity(
                self,
                new_activity,
                piglins_zombify,
                nearest_visible_player,
            );
            self.activity = new_activity;
            Some(sound)
        } else {
            None
        }
    }

    pub fn reset_ambient_sound_time(&mut self)
        ensures
            *final(self) == (PiglinEntity {
                ambient_sound_time: (-PiglinEntity::AMBIENT_SOUND_INTERVAL) as i32,
                ..*old(self)
            }),
    {
        self.ambient_sound_time = -Self::AMBIENT_SOUND_INTERVAL;
    }

    /// The ambient sound clock for a roll in `0..1000`: the clock advances (wrapping), and when
    /// the roll is below its old value the clock resets and the sound of the current activity
    /// plays.
    pub fn tick_ambient_sound_with_roll(
        &mut self,
        roll: i32,
        piglins_zombify: bool,
        nearest_visible_player: Option<&Equipment>,
    ) -> (r: Option<PiglinSound>)
        ensures
            roll < old(self).ambient_sound_time ==> r == Some(
                activity_sound(
                    old(self),
                    old(self).activity,
                    !old(self).immune_to_zombification && !old(self).mob_entity.no_ai
                        && piglins_zombify,
                    match nearest_visible_player {
                        Some(p) => loved(p.main_hand) || loved(p.off_hand),
                        None => false,
                    },
                ),
            ) && *final(self) == (PiglinEntity {
                ambient_sound_time: (-PiglinEntity::AMBIENT_SOUND_INTERVAL) as i32,
                ..*old(self)
            }),
            roll >= old(self).ambient_sound_time ==> r is None && *final(self) == (PiglinEntity {
                ambient_sound_time: next_clock(old(self).ambient_sound_time),
                ..*old(self)
            }),
    {
        let before = self.ambient_sound_time;
        self.ambient_sound_time = before.wrapping_add(1);
        if roll < before {
            self.reset_ambient_sound_time();
            let activity = self.activity;
            Some(PiglinAi::get_sound_for_activity(self, activity, piglins_zombify, nearest_visible_player))
        } else {
            None
        }
    }

    /// Now and then, more often the longer it has been quiet, a living piglin makes the sound
    /// of its activity.
    pub fn tick_ambient_sound(
        &mut self,
        healthy: bool,
        piglins_zombify: bool,
        nearest_visible_player: Option<&Equipment>,
    ) -> (r: Option<PiglinSound>)
        ensures
            !healthy ==> r is None && *final(self) == *old(self),
            r is Some ==> r == Some(
                activity_sound(
                    old(self),
                    old(self).activity,
                    !old(self).immune_to_zombification && !old(self).mob_entity.no_ai
                        && piglins_zombify,
                    match nearest_visible_player {
                        Some(p) => loved(p.main_hand) || loved(p.off_hand),
                        None => false,
                    },
                ),
            ) && *final(self) == (PiglinEntity {
                ambient_sound_time: (-PiglinEntity::AMBIENT_SOUND_INTERVAL) as i32,
                ..*old(self)
            }),
            healthy && r is None ==> *final(self) == (PiglinEntity {
                ambient_sound_time: next_clock(old(self).ambient_sound_time),
                ..*old(self)
            }),
            healthy && old(self).ambient_sound_time <= 0 ==> r is None,
            healthy && old(self).ambient_sound_time >= 1000 ==> r is Some,
    {
        if !healthy {
            return None;
        }
        let roll = random_below(1000);
        self.tick_ambient_sound_with_roll(roll, piglins_zombify, nearest_visible_player)
    }

    /// The timers of one tick: every cooldown counts down, a celebration that ends stops the
    /// dancing, and the time in a zombifying dimension counts up. Returns what the world does
    /// next; `None` for a dead piglin, which does nothing.
    #[verifier::rlimit(40)]
    pub fn mob_tick(&mut self, alive: bool, ctx: &PiglinTickContext) -> (r: Option<PiglinTickStep>)
        requires
            old(self).wf(),
        ensures
            final(self).wf(),
            !alive ==> r is None && *final(self) == *old(self),
            alive ==> r is Some && ({
                let step = r.unwrap();
                let converting = !old(self).immune_to_zombification && !old(self).mob_entity.no_ai
                    && ctx.piglins_zombify;
                &&& step.scan_sensors == (ctx.sensor_clock % PiglinAi::SENSOR_SCAN_INTERVAL == 0)
                &&& final(self).time_in_overworld == (if converting {
                    if old(self).time_in_overworld == i32::MAX {
                        i32::MIN as int
                    } else {
                        old(self).time_in_overworld + 1
                    }
                } else {
                    0
                })
                &&& step.convert == (converting && final(self).time_in_overworld
                    > PiglinEntity::CONVERSION_TIME)
                &&& final(self).admiring_disabled_timer == count_down(old(self).admiring_disabled_timer)
                &&& final(self).eat_cooldown_timer == count_down(old(self).eat_cooldown_timer)
                &&& final(self).hunt_cooldown_timer == count_down(old(self).hunt_cooldown_timer)
                &&& final(self).disable_walk_to_admire_timer == count_down(
                    old(self).disable_walk_to_admire_timer,
                )
                &&& final(self).celebration_timer == count_down(old(self).celebration_timer)
                &&& final(self).admire_timer == count_down(old(self).admire_timer)
                &&& final(self).is_dancing == (old(self).is_dancing && !(
                old(self).celebration_timer == 1))
                &&& !ctx.healthy ==> step.ambient_sound is None && final(self).ambient_sound_time
                    == old(self).ambient_sound_time
                &&& step.ambient_sound is Some ==> step.ambient_sound == Some(
                    activity_sound(
                        old(self),
                        old(self).activity,
                        converting,
                        match ctx.nearest_visible_player {
                            Some(p) => loved(p.main_hand) || loved(p.off_hand),
                            None => false,
                        },
                    ),
                ) && final(self).ambient_sound_time == -PiglinEntity::AMBIENT_SOUND_INTERVAL
                &&& ctx.healthy && step.ambient_sound is None ==> final(self).ambient_sound_time
                    == next_clock(old(self).ambient_sound_time)
                &&& ctx.healthy && old(self).ambient_sound_time <= 0 ==> step.ambient_sound is None
                &&& ctx.healthy && old(self).ambient_sound_time >= 1000 ==> step.ambient_sound is Some
                &&& *final(self) == (PiglinEntity {
                    time_in_overworld: final(self).time_in_overworld,
                    admiring_disabled_timer: final(self).admiring_disabled_timer,
                    eat_cooldown_timer: final(self).eat_cooldown_timer,
                    hunt_cooldown_timer: final(self).hunt_cooldown_timer,
                    disable_walk_to_admire_timer: final(self).disable_walk_to_admire_timer,
                    celebration_timer: final(self).celebration_timer,
                    admire_timer: final(self).admire_timer,
                    is_dancing: final(self).is_dancing,
                    ambient_sound_time: final(self).ambient_sound_time,
                    ..*old(self)
                })
            }),
    {
        if !alive {
            return None;
        }
        let nearest = match &ctx.nearest_visible_player {
            Some(p) => Some(p),
            None => None,
        };
        let ambient_sound = self.tick_ambient_sound(ctx.healthy, ctx.piglins_zombify, nearest);
        let ghost clock = self.ambient_sound_time;
        assert(nearest == match ctx.nearest_visible_player {
            Some(p) => Some(&p),
            None => None,
        });
        let convert = self.tick_conversion(ctx.piglins_zombify);
        self.tick_timers();
        assert(self.ambient_sound_time == clock);
        let scan_sensors = ctx.sensor_clock % PiglinAi::SENSOR_SCAN_INTERVAL == 0;
        Some(PiglinTickStep { convert, scan_sensors, ambient_sound })
    }

    /// Counts the time spent in a zombifying dimension (resetting it elsewhere); true when
    /// the piglin has been there long enough to convert.
    fn tick_conversion(&mut self, piglins_zombify: bool) -> (r: bool)
        ensures
            ({
                let converting = !old(self).immune_to_zombification && !old(self).mob_entity.no_ai
                    && piglins_zombify;
                &&& final(self).time_in_overworld == (if converting {
                    if old(self).time_in_overworld == i32::MAX {
                        i32::MIN as int
                    } else {
                        old(self).time_in_overworld + 1
                    }
                } else {
                    0
                })
                &&& r == (converting && final(self).time_in_overworld > PiglinEntity::CONVERSION_TIME)
            }),
            *final(self) == (PiglinEntity {
                time_in_overworld: final(self).time_in_overworld,
                ..*old(self)
            }),
    {
        if self.is_converting(piglins_zombify) {
            self.time_in_overworld = self.time_in_overworld.wrapping_add(1);
            self.time_in_overworld > Self::CONVERSION_TIME
        } else {
            self.time_in_overworld = 0;
            false
        }
    }

    /// Counts every cooldown down; the end of a celebration stops the dancing.
    fn tick_timers(&mut self)
        ensures
            *final(self) == (PiglinEntity {
                admiring_disabled_timer: count_down(old(self).admiring_disabled_timer),
                eat_cooldown_timer: count_down(old(self).eat_cooldown_timer),
                hunt_cooldown_timer: count_down(old(self).hunt_cooldown_timer),
                disable_walk_to_admire_timer: count_down(old(self).disable_walk_to_admire_timer),
                celebration_timer: count_down(old(self).celebration_timer),
                admire_timer: count_down(old(self).admire_timer),
                is_dancing: old(self).is_dancing && !(old(self).celebration_timer == 1),
                ..*old(self)
            }),
    {
        let admiring_disabled_timer = count_down_exec(self.admiring_disabled_timer);
        let eat_cooldown_timer = count_down_exec(self.eat_cooldown_timer);
        let hunt_cooldown_timer = count_down_exec(self.hunt_cooldown_timer);
        let disable_walk_to_admire_timer = count_down_exec(self.disable_walk_to_admire_timer);
        let celebration_ends = self.celebration_timer == 1;
        let celebration_timer = count_down_exec(self.celebration_timer);
        let admire_timer = count_down_exec(self.admire_timer);
        self.admiring_disabled_timer = admiring_disabled_timer;
        self.eat_cooldown_timer = eat_cooldown_timer;
        self.hunt_cooldown_timer = hunt_cooldown_timer;
        self.disable_walk_to_admire_timer = disable_walk_to_admire_timer;
        self.celebration_timer = celebration_timer;
        self.admire_timer = admire_timer;
        if celebration_ends {
            self.is_dancing = false;
        }
    }

    /// After the sensors: lets go of a held item once admiring is over, unless it is a shield.
    /// `equips` is as in `stop_holding_off_hand_item`.
    pub fn stop_holding_item_if_no_longer_admiring(&mut self, equips: bool) -> (r: Vec<PiglinEffect>)
        requires
            old(self).wf(),
        ensures
            final(self).wf(),
            (old(self).admire_timer > 0 || old(self).mob_entity.equipment.off_hand.is_empty_spec()
                || old(self).mob_entity.equipment.off_hand.blocks_attacks) ==> r@.len() == 0
                && *final(self) == *old(self),
            !(old(self).admire_timer > 0 || old(self).mob_entity.equipment.off_hand.is_empty_spec()
                || old(self).mob_entity.equipment.off_hand.blocks_attacks) ==> {
                &&& final(self).mob_entity.equipment.off_hand == ItemStack::empty_spec()
                &&& final(self).admiring_item is None
                &&& old(self).lets_go(true, equips, *final(self), r@)
            },
    {
        if self.is_admiring() {
            return Vec::new();
        }
        let off_hand = self.off_hand_item();
        if off_hand.is_empty() || off_hand.blocks_attacks {
            return Vec::new();
        }
        self.stop_holding_off_hand_item(true, equips)
    }

    /// After the sensors: starts admiring the nearest wanted item when it is a loved one and
    /// nothing keeps the piglin from it. `nearest_item` is the stack of that item, while it is
    /// alive.
    pub fn start_admiring_if_seen(&mut self, nearest_item: Option<ItemStack>)
        ensures
            (old(self).admire_timer <= 0 && old(self).admiring_disabled_timer <= 0 && old(self).disable_walk_to_admire_timer <= 0 && match nearest_item {
                Some(stack) => loved(stack),
                None => false,
            }) ==> *final(self) == (PiglinEntity {
                admire_timer: PiglinAi::ADMIRE_DURATION,
                ..*old(self)
            }),
            !(old(self).admire_timer <= 0 && old(self).admiring_disabled_timer <= 0 && old(self).disable_walk_to_admire_timer <= 0 && match nearest_item {
                Some(stack) => loved(stack),
                None => false,
            }) ==> *final(self) == *old(self),
    {
        if self.is_admiring() || self.is_admiring_disabled() || self.is_walk_to_admire_disabled() {
            return;
        }
        match nearest_item {
            Some(stack) => {
                if PiglinAi::is_loved_item(&stack) {
                    self.admire_gold_item();
                }
            },
            None => {},
        }
    }

    /// Stops admiring an item it is walking to once that item is no longer within reach.
    /// `nearest_within_reach` is whether the nearest wanted item is alive and within the
    /// walking distance.
    pub fn stop_admiring_if_item_too_far_away(&mut self, nearest_within_reach: bool)
        ensures
            (old(self).admire_timer > 0 && old(self).mob_entity.equipment.off_hand.is_empty_spec()
                && !nearest_within_reach) ==> *final(self) == (PiglinEntity {
                admire_timer: 0,
                ..*old(self)
            }),
            !(old(self).admire_timer > 0 && old(self).mob_entity.equipment.off_hand.is_empty_spec()
                && !nearest_within_reach) ==> *final(self) == *old(self),
    {
        if !self.is_admiring() || self.is_holding_item_in_off_hand() {
            return;
        }
        if nearest_within_reach {
            return;
        }
        self.admire_timer = 0;
    }

    /// Counts how long the piglin has tried to reach the item it admires; past the limit it
    /// gives up admiring and for a while does not walk to admire.
    pub fn stop_admiring_if_tired_of_trying_to_reach_item(&mut self, has_nearest_item: bool)
        ensures
            !(old(self).admire_timer > 0 && has_nearest_item
                && old(self).mob_entity.equipment.off_hand.is_empty_spec()) ==> *final(self)
                == *old(self),
            (old(self).admire_timer > 0 && has_nearest_item
                && old(self).mob_entity.equipment.off_hand.is_empty_spec()) ==> {
                let time = old(self).time_trying_to_reach_item;
                if time < 0 {
                    *final(self) == (PiglinEntity { time_trying_to_reach_item: 0, ..*old(self) })
                } else if time > PiglinAi::MAX_TIME_TRYING_TO_REACH_ITEM {
                    *final(self) == (PiglinEntity {
                        admire_timer: 0,
                        time_trying_to_reach_item: -1i32,
                        disable_walk_to_admire_timer: PiglinAi::DISABLE_WALK_TO_ADMIRE_DURATION,
                        ..*old(self)
                    })
                } else {
                    *final(self) == (PiglinEntity {
                        time_trying_to_reach_item: (time + 1) as i32,
                        ..*old(self)
                    })
                }
            },
    {
        if !self.is_admiring() || !has_nearest_item || self.is_holding_item_in_off_hand() {
            return;
        }
        let time = self.time_trying_to_reach_item;
        if time < 0 {
            self.time_trying_to_reach_item = 0;
        } else if time > PiglinAi::MAX_TIME_TRYING_TO_REACH_ITEM {
            self.admire_timer = 0;
            self.time_trying_to_reach_item = -1;
            self.disable_walk_to_admire_timer = PiglinAi::DISABLE_WALK_TO_ADMIRE_DURATION;
        } else {
            self.time_trying_to_reach_item = time + 1;
        }
    }

    /// The time to live of an expiring memory.
    pub open spec fn memory_ttl(&self, memory: ExpiringMemory) -> i32 {
        match memory {
            ExpiringMemory::AdmiringItem => self.admire_timer,
            ExpiringMemory::AdmiringDisabled => self.admiring_disabled_timer,
            ExpiringMemory::HuntedRecently => self.hunt_cooldown_timer,
        }
    }

    /// The expiring memories with their timers.
    pub fn expiring_memories(&self) -> (r: Vec<(ExpiringMemory, i32)>)
        ensures
            r@ == seq![
                (ExpiringMemory::AdmiringItem, self.admire_timer),
                (ExpiringMemory::AdmiringDisabled, self.admiring_disabled_timer),
                (ExpiringMemory::HuntedRecently, self.hunt_cooldown_timer),
            ],
    {
        let mut r = Vec::new();
        r.push((ExpiringMemory::AdmiringItem, self.admire_timer));
        r.push((ExpiringMemory::AdmiringDisabled, self.admiring_disabled_timer));
        r.push((ExpiringMemory::HuntedRecently, self.hunt_cooldown_timer));
        r
    }

    /// The saved entry of `memory`, when it is set.
    pub open spec fn written_memory(&self, memory: ExpiringMemory) -> Seq<(ExpiringMemory, i64)> {
        if self.memory_ttl(memory) > 0 {
            seq![(memory, self.memory_ttl(memory) as i64)]
        } else {
            Seq::empty()
        }
    }

    /// The memories that are set, in order, with their time to live.
    pub open spec fn written_memories(&self) -> Seq<(ExpiringMemory, i64)> {
        self.written_memory(ExpiringMemory::AdmiringItem) + self.written_memory(
            ExpiringMemory::AdmiringDisabled,
        ) + self.written_memory(ExpiringMemory::HuntedRecently)
    }

    pub fn write_brain_memories(&self) -> (r: Vec<(ExpiringMemory, i64)>)
        ensures
            r@ == self.written_memories(),
    {
        let mut memories = Vec::new();
        if self.admire_timer > 0 {
            memories.push((ExpiringMemory::AdmiringItem, self.admire_timer as i64));
        }
        if self.admiring_disabled_timer > 0 {
            memories.push((ExpiringMemory::AdmiringDisabled, self.admiring_disabled_timer as i64));
        }
        if self.hunt_cooldown_timer > 0 {
            memories.push((ExpiringMemory::HuntedRecently, self.hunt_cooldown_timer as i64));
        }
        assert(memories@ == self.written_memories());
        memories
    }

    /// A timer after reading `memories`: the saved time to live of `memory`, clamped, when
    /// there is one; `current` otherwise.
    pub open spec fn read_timer(memories: Seq<(ExpiringMemory, i64)>, memory: ExpiringMemory, current: i32) -> i32 {
        match lookup_memory(memories, memory) {
            Some(ttl) => clamp_ttl(ttl),
            None => current,
        }
    }

    /// The piglin after reading `memories`.
    pub open spec fn with_memories(self, memories: Seq<(ExpiringMemory, i64)>) -> PiglinEntity {
        PiglinEntity {
            admire_timer: PiglinEntity::read_timer(
                memories,
                ExpiringMemory::AdmiringItem,
                self.admire_timer,
            ),
            admiring_disabled_timer: PiglinEntity::read_timer(
                memories,
                ExpiringMemory::AdmiringDisabled,
                self.admiring_disabled_timer,
            ),
            hunt_cooldown_timer: PiglinEntity::read_timer(
                memories,
                ExpiringMemory::HuntedRecently,
                self.hunt_cooldown_timer,
            ),
            ..self
        }
    }

    pub fn read_brain_memories(&mut self, memories: &Vec<(ExpiringMemory, i64)>)
        ensures
            *final(self) == old(self).with_memories(memories@),
    {
        if let Some(ttl) = find_memory(memories, ExpiringMemory::AdmiringItem) {
            self.admire_timer = clamp_ttl_exec(ttl);
        }
        if let Some(ttl) = find_memory(memories, ExpiringMemory::AdmiringDisabled) {
            self.admiring_disabled_timer = clamp_ttl_exec(ttl);
        }
        if let Some(ttl) = find_memory(memories, ExpiringMemory::HuntedRecently) {
            self.hunt_cooldown_timer = clamp_ttl_exec(ttl);
        }
    }

    /// The flags that are set, as sent to clients when the piglin is first tracked.
    pub fn mob_init_data_tracker(&self) -> (r: Vec<PiglinFlag>)
        ensures
            r@ == (if self.immune_to_zombification {
                seq![PiglinFlag::ImmuneToZombification]
            } else {
                Seq::empty()
            }) + (if self.is_baby {
                seq![PiglinFlag::Baby]
            } else {
                Seq::empty()
            }) + (if self.is_charging_crossbow {
                seq![PiglinFlag::ChargingCrossbow]
            } else {
                Seq::empty()
            }) + (if self.is_dancing {
                seq![PiglinFlag::Dancing]
            } else {
                Seq::empty()
            }),
    {
        let mut flags = Vec::new();
        if self.is_immune_to_zombification() {
            flags.push(PiglinFlag::ImmuneToZombification);
        }
        if self.is_baby() {
            flags.push(PiglinFlag::Baby);
        }
        if self.is_charging_crossbow() {
            flags.push(PiglinFlag::ChargingCrossbow);
        }
        if self.is_dancing() {
            flags.push(PiglinFlag::Dancing);
        }
        flags
    }

    /// A saved flag: present (and true) only when set.
    pub open spec fn flag_saved(flag: bool) -> Option<bool> {
        if flag {
            Some(true)
        } else {
            None
        }
    }

    /// `nbt` is the saved data of this piglin: the memories that are set, each flag only when
    /// set, the time in the overworld when positive, "cannot hunt" when the piglin cannot hunt
    /// now, and the non-empty stacks of the inventory when there are any.
    pub open spec fn saves_as(&self, nbt: PiglinNbt) -> bool {
        &&& nbt.memories@ == self.written_memories()
        &&& nbt.immune_to_zombification == PiglinEntity::flag_saved(self.immune_to_zombification)
        &&& nbt.time_in_overworld == (if self.time_in_overworld > 0 {
            Some(self.time_in_overworld)
        } else {
            None
        })
        &&& nbt.is_baby == PiglinEntity::flag_saved(self.is_baby)
        &&& nbt.cannot_hunt == PiglinEntity::flag_saved(!self.can_hunt_spec())
        &&& nbt.is_charging_crossbow == PiglinEntity::flag_saved(self.is_charging_crossbow)
        &&& nbt.is_dancing == PiglinEntity::flag_saved(self.is_dancing)
        &&& match nbt.inventory {
            Some(items) => items@ == nonempty_stacks(self.inventory@) && items@.len() > 0,
            None => nonempty_stacks(self.inventory@).len() == 0,
        }
    }

    /// Loading `nbt` into this piglin gives `after`: the memories read, each flag and the time
    /// in the overworld that is present taken over, the inventory replaced when present, and
    /// nothing else changed.
    pub open spec fn loads_as(&self, nbt: PiglinNbt, after: PiglinEntity) -> bool {
        let timers = self.with_memories(nbt.memories@);
        &&& after.admire_timer == timers.admire_timer
        &&& after.admiring_disabled_timer == timers.admiring_disabled_timer
        &&& after.hunt_cooldown_timer == timers.hunt_cooldown_timer
        &&& after.immune_to_zombification == option_or(
            nbt.immune_to_zombification,
            self.immune_to_zombification,
        )
        &&& after.time_in_overworld == option_or(nbt.time_in_overworld, self.time_in_overworld)
        &&& after.is_baby == option_or(nbt.is_baby, self.is_baby)
        &&& after.cannot_hunt == option_or(nbt.cannot_hunt, self.cannot_hunt)
        &&& after.is_charging_crossbow == option_or(
            nbt.is_charging_crossbow,
            self.is_charging_crossbow,
        )
        &&& after.is_dancing == option_or(nbt.is_dancing, self.is_dancing)
        &&& after.inventory@ == match nbt.inventory {
            Some(items) => items@,
            None => self.inventory@,
        }
        &&& after == (PiglinEntity {
            admire_timer: after.admire_timer,
            admiring_disabled_timer: after.admiring_disabled_timer,
            hunt_cooldown_timer: after.hunt_cooldown_timer,
            immune_to_zombification: after.immune_to_zombification,
            time_in_overworld: after.time_in_overworld,
            is_baby: after.is_baby,
            cannot_hunt: after.cannot_hunt,
            is_charging_crossbow: after.is_charging_crossbow,
            is_dancing: after.is_dancing,
            inventory: after.inventory,
            ..*self
        })
    }

    /// The saved data: the memories that are set, each flag only when set, the time in the
    /// overworld when positive, "cannot hunt" when the piglin cannot hunt now, and the
    /// non-empty stacks of the inventory when there are any.
    pub fn mob_write_nbt(&self) -> (r: PiglinNbt)
        ensures
            self.saves_as(r),
    {
        let memories = self.write_brain_memories();
        let items = nonempty_copy(&self.inventory);
        let inventory = if items.len() > 0 {
            Some(items)
        } else {
            None
        };
        PiglinNbt {
            memories,
            immune_to_zombification: if self.is_immune_to_zombification() {
                Some(true)
            } else {
                None
            },
            time_in_overworld: if self.time_in_overworld > 0 {
                Some(self.time_in_overworld)
            } else {
                None
            },
            is_baby: if self.is_baby() {
                Some(true)
            } else {
                None
            },
            cannot_hunt: if !self.can_hunt() {
                Some(true)
            } else {
                None
            },
            is_charging_crossbow: if self.is_charging_crossbow() {
                Some(true)
            } else {
                None
            },
            is_dancing: if self.is_dancing() {
                Some(true)
            } else {
                None
            },
            inventory,
        }
    }

    /// Loads saved data: the memories, then each flag and the time in the overworld that is
    /// present, then the inventory (replaced by the saved stacks) when present.
    pub fn mob_read_nbt(&mut self, nbt: &PiglinNbt)
        ensures
            old(self).loads_as(*nbt, *final(self)),
    {
        self.read_brain_memories(&nbt.memories);
        let immune_to_zombification = saved_or(nbt.immune_to_zombification, self.immune_to_zombification);
        let time_in_overworld = saved_or(nbt.time_in_overworld, self.time_in_overworld);
        let is_baby = saved_or(nbt.is_baby, self.is_baby);
        let cannot_hunt = saved_or(nbt.cannot_hunt, self.cannot_hunt);
        let is_charging_crossbow = saved_or(nbt.is_charging_crossbow, self.is_charging_crossbow);
        let is_dancing = saved_or(nbt.is_dancing, self.is_dancing);
        self.immune_to_zombification = immune_to_zombification;
        self.time_in_overworld = time_in_overworld;
        self.is_baby = is_baby;
        self.cannot_hunt = cannot_hunt;
        self.is_charging_crossbow = is_charging_crossbow;
        self.is_dancing = is_dancing;
        if let Some(items) = &nbt.inventory {
            self.inventory = copy_stacks(items);
        }
    }

    /// Handing a piglin that is free to admire a gold ingot: it takes one (a creative player
    /// keeps theirs) and admires it. `None` when the piglin does not take it, and the ordinary
    /// mob interaction applies.
    pub fn mob_interact(&mut self, item_stack: &mut ItemStack, creative: bool) -> (r: Option<Vec<PiglinEffect>>)
        ensures
            !(old(self).admiring_disabled_timer <= 0 && old(self).admire_timer <= 0
                && !old(self).is_baby && old(item_stack).item == ItemKind::GoldIngot) ==> r is None
                && *final(self) == *old(self) && *final(item_stack) == *old(item_stack),
            (old(self).admiring_disabled_timer <= 0 && old(self).admire_timer <= 0
                && !old(self).is_baby && old(item_stack).item == ItemKind::GoldIngot) ==> {
                let taken = old(item_stack).with_count(
                    if old(item_stack).item_count > 0 { 1 } else { 0 },
                );
                &&& r is Some
                &&& *final(self) == (PiglinEntity {
                    admire_timer: PiglinAi::ADMIRE_DURATION,
                    ..old(self).holding_in_off_hand(taken)
                })
                &&& r.unwrap()@ == match old(self).dropped_off_hand() {
                    Some(d) => seq![PiglinEffect::SpawnAtLocation(d), PiglinEffect::StopWalking],
                    None => seq![PiglinEffect::StopWalking],
                }
                &&& *final(item_stack) == (if creative {
                    *old(item_stack)
                } else {
                    old(item_stack).with_count(old(item_stack).item_count - taken.item_count)
                })
            },
    {
        if PiglinAi::can_admire(self, item_stack) {
            let count: u8 = if item_stack.item_count > 0 {
                1
            } else {
                0
            };
            let mut taken = *item_stack;
            taken.item_count = count;
            if !creative {
                item_stack.item_count = item_stack.item_count - count;
            }
            Some(self.start_admiring(taken))
        } else {
            None
        }
    }

    /// How many items the piglin takes from a stack it picks up: gold nuggets all at once,
    /// anything else one at a time.
    pub fn pick_up_count(&self, stack: &ItemStack) -> (r: u8)
        ensures
            r == pick_up_count_spec(*stack),
    {
        if stack.item == ItemKind::GoldNugget {
            stack.item_count
        } else if stack.item_count < 1 {
            stack.item_count
        } else {
            1
        }
    }

    /// Picks up from an item entity holding `stack`. The piglin stops walking; when it takes at
    /// least one item (`pick_up_count`) and the world accepts the pickup of that many
    /// (`accepted`), the items leave `stack` and are handled as `take_picked_up_item` does.
    /// Returns the effects, `StopWalking` first, and whether the item entity is now empty and
    /// is removed (otherwise the world resends its data).
    pub fn pick_up_item(&mut self, stack: &mut ItemStack, accepted: bool, equips: bool) -> (r: (
        Vec<PiglinEffect>,
        bool,
    ))
        requires
            old(self).wf(),
        ensures
            final(self).wf(),
            r.0@.len() >= 1,
            r.0@[0] == PiglinEffect::StopWalking,
            pick_up_count_spec(*old(stack)) == 0 || !accepted ==> {
                &&& *final(stack) == *old(stack)
                &&& *final(self) == *old(self)
                &&& r.0@.len() == 1
                &&& !r.1
            },
            pick_up_count_spec(*old(stack)) != 0 && accepted ==> {
                let k = pick_up_count_spec(*old(stack));
                &&& *final(stack) == old(stack).with_count(old(stack).item_count - k)
                &&& r.1 == final(stack).is_empty_spec()
                &&& old(self).takes(old(stack).with_count(k as int), equips, *final(self), r.0@.drop_first())
            },
    {
        let mut effects = Vec::new();
        effects.push(PiglinEffect::StopWalking);
        let count = self.pick_up_count(stack);
        if count == 0 || !accepted {
            return (effects, false);
        }
        let taken = ItemStack { item_count: count, ..*stack };
        stack.item_count = stack.item_count - count;
        let emptied = stack.is_empty();
        let mut more = self.take_picked_up_item(taken, equips);
        let ghost rest = more@;
        effects.append(&mut more);
        assert(effects@.drop_first() =~= rest);
        (effects, emptied)
    }

    /// Taking `taken` into the piglin leaves `after` and asks for `effects`: a loved item is
    /// held in the off hand and admired (what was held there drops), food is eaten when the
    /// piglin has not eaten recently, and anything else is equipped (when `equips`) or stored.
    pub open spec fn takes(self, taken: ItemStack, equips: bool, after: PiglinEntity, effects: Seq<PiglinEffect>) -> bool {
        if loved(taken) {
            &&& after == (PiglinEntity {
                time_trying_to_reach_item: -1i32,
                admire_timer: PiglinAi::ADMIRE_DURATION,
                ..self.holding_in_off_hand(taken)
            })
            &&& effects == match self.dropped_off_hand() {
                Some(d) => seq![PiglinEffect::SpawnAtLocation(d)],
                None => Seq::empty(),
            }
        } else if taken.tags.piglin_food && self.eat_cooldown_timer <= 0 {
            after == (PiglinEntity { eat_cooldown_timer: PiglinAi::EAT_COOLDOWN, ..self })
                && effects.len() == 0
        } else if equips {
            after == self && effects.len() == 0
        } else {
            &&& after == (PiglinEntity { inventory: after.inventory, ..self })
            &&& after.inventory@ == added(self.inventory@, taken).0
            &&& effects == seq![PiglinEntity::leftover_throw(self.inventory@, taken)]
        }
    }

    /// What the piglin does with items it picked up: admires a loved item (in the off hand),
    /// eats food when it has not eaten recently, and otherwise equips the item or stores it.
    /// `equips` is whether the mob's equipping rules take the item (the world applies that
    /// equip).
    pub fn take_picked_up_item(&mut self, taken: ItemStack, equips: bool) -> (r: Vec<PiglinEffect>)
        requires
            old(self).wf(),
        ensures
            final(self).wf(),
            old(self).takes(taken, equips, *final(self), r@),
    {
        let mut effects = Vec::new();
        if PiglinAi::is_loved_item(&taken) {
            self.time_trying_to_reach_item = -1;
            if let Some(dropped) = self.hold_in_off_hand(taken) {
                effects.push(PiglinEffect::SpawnAtLocation(dropped));
            }
            self.admire_gold_item();
        } else if PiglinAi::is_food(&taken) && !self.has_eaten_recently() {
            self.eat_cooldown_timer = PiglinAi::EAT_COOLDOWN;
        } else if !equips {
            effects.push(self.put_in_inventory(taken));
        }
        effects
    }

    /// Whether the piglin picks up items around it this tick: it must be allowed to pick up
    /// loot, be alive with health left and not dead, and the `mob_griefing` rule must be on.
    pub fn picks_up_items(&self, alive_and_healthy: bool, dead: bool, mob_griefing: bool) -> (r: bool)
        ensures
            r == (self.mob_entity.can_pick_up_loot && alive_and_healthy && !dead && mob_griefing),
    {
        self.mob_entity.can_pick_up_loot && alive_and_healthy && !dead && mob_griefing
    }

    /// Whether an item entity next to the piglin is picked up: alive, past its pickup delay,
    /// and wanted.
    pub fn picks_up(&self, stack: &ItemStack, alive: bool, pickup_delay: i32, generic_replace: bool) -> (r: bool)
        ensures
            r == (alive && pickup_delay == 0 && !stack.is_empty_spec()
                && super::piglin_ai::wants_to_pickup_spec(self, *stack, generic_replace)),
    {
        alive && pickup_delay == 0 && self.wants_item_entity(stack, generic_replace)
    }

    /// On damage the ambient sound clock restarts; a dead piglin drops its inventory, a live one
    /// reacts to its attacker. Returns the stacks to drop and what else to do.
    pub fn on_damage(&mut self, dead: bool, source: Option<&Attacker>, equips: bool) -> (r: (Vec<ItemStack>, Vec<PiglinEffect>))
        requires
            old(self).wf(),
        ensures
            final(self).wf(),
            final(self).ambient_sound_time == -PiglinEntity::AMBIENT_SOUND_INTERVAL,
            dead ==> r.0@ == nonempty_stacks(old(self).inventory@) && final(self).inventory@.len()
                == 0 && r.1@.len() == 0 && *final(self) == (PiglinEntity {
                inventory: final(self).inventory,
                ambient_sound_time: (-PiglinEntity::AMBIENT_SOUND_INTERVAL) as i32,
                ..*old(self)
            }),
            !dead && source is None ==> r.0@.len() == 0 && r.1@.len() == 0 && *final(self) == (
            PiglinEntity {
                ambient_sound_time: (-PiglinEntity::AMBIENT_SOUND_INTERVAL) as i32,
                ..*old(self)
            }),
            !dead && source is Some ==> r.0@.len() == 0 && (PiglinEntity {
                ambient_sound_time: (-PiglinEntity::AMBIENT_SOUND_INTERVAL) as i32,
                ..*old(self)
            }).hurt_by(*source.unwrap(), equips, *final(self), r.1@),
    {
        self.reset_ambient_sound_time();
        if dead {
            (self.drop_inventory(), Vec::new())
        } else {
            match source {
                Some(attacker) => (Vec::new(), self.was_hurt_by(attacker, equips)),
                None => (Vec::new(), Vec::new()),
            }
        }
    }

    /// Piglins do not spawn on nether wart blocks.
    pub fn check_piglin_spawn_rules(below_is_nether_wart_block: bool) -> (r: bool)
        ensures
            r == !below_is_nether_wart_block,
    {
        !below_is_nether_wart_block
    }

    /// Turns into a zombified piglin: the conversion sound plays unless the difficulty is
    /// peaceful, the inventory drops, and a zombified piglin takes the piglin's place wearing
    /// and holding what the piglin wore and held.
    pub fn convert_to_zombified(&mut self, peaceful: bool) -> (r: Conversion)
        ensures
            r.play_sound == !peaceful,
            r.drops@ == nonempty_stacks(old(self).inventory@),
            r.spawn == EntityKind::ZombifiedPiglin,
            r.equipment == old(self).mob_entity.equipment,
            final(self).inventory@.len() == 0,
            *final(self) == (PiglinEntity { inventory: final(self).inventory, ..*old(self) }),
    {
        let play_sound = !peaceful;
        let drops = self.drop_inventory();
        Conversion {
            play_sound,
            drops,
            spawn: EntityKind::ZombifiedPiglin,
            equipment: self.mob_entity.equipment,
        }
    }

    /// Looks for a piglin repellent (a lit soul campfire, soul fire, a soul torch or lantern...)
    /// within 8 blocks horizontally and 4 vertically of `center`; `repels` tells whether the
    /// block at a position repels piglins.
    pub fn refresh_nearest_repellent<F: Fn(&BlockPos) -> bool>(&mut self, center: BlockPos, repels: F) -> (r: bool)
        requires
            total_tester(repels),
            i32::MIN + 8 <= center.x <= i32::MAX - 8,
            i32::MIN + 4 <= center.y <= i32::MAX - 4,
            i32::MIN + 8 <= center.z <= i32::MAX - 8,
        ensures
            *final(self) == (PiglinEntity { near_repellent: r, ..*old(self) }),
            r ==> exists|pos: BlockPos| #[trigger] in_repellent_range(center, pos) && repels.ensures((&pos,), true),
            !r ==> forall|pos: BlockPos| #[trigger] in_repellent_range(center, pos) ==> repels.ensures((&pos,), false),
    {
        let found = scan_for_repellent(center, &repels);
        assert forall|pos: BlockPos, b: bool| (&repels).ensures((&pos,), b) implies repels.ensures((&pos,), b) by {}
        self.near_repellent = found;
        found
    }
}

/// `pos` lies within the repellent detection range of `center`.
pub open spec fn in_repellent_range(center: BlockPos, pos: BlockPos) -> bool {
    &&& center.x - PiglinAi::REPELLENT_DETECTION_RANGE_HORIZONTAL <= pos.x <= center.x
        + PiglinAi::REPELLENT_DETECTION_RANGE_HORIZONTAL
    &&& center.y - PiglinAi::REPELLENT_DETECTION_RANGE_VERTICAL <= pos.y <= center.y
        + PiglinAi::REPELLENT_DETECTION_RANGE_VERTICAL
    &&& center.z - PiglinAi::REPELLENT_DETECTION_RANGE_HORIZONTAL <= pos.z <= center.z
        + PiglinAi::REPELLENT_DETECTION_RANGE_HORIZONTAL
}

/// `pos` comes before the offset `(dy, dx, dz)` in the scan order: by height, then by x, then
/// by z.
pub open spec fn scanned_before(center: BlockPos, pos: BlockPos, dy: int, dx: int, dz: int) -> bool {
    let py = pos.y - center.y;
    let px = pos.x - center.x;
    let pz = pos.z - center.z;
    py < dy || (py == dy && px < dx) || (py == dy && px == dx && pz < dz)
}

/// Scans the detection range in order, height first, and stops at the first repellent.
fn scan_for_repellent<F: Fn(&BlockPos) -> bool>(center: BlockPos, repels: &F) -> (r: bool)
    requires
        total_tester(*repels),
        i32::MIN + 8 <= center.x <= i32::MAX - 8,
        i32::MIN + 4 <= center.y <= i32::MAX - 4,
        i32::MIN + 8 <= center.z <= i32::MAX - 8,
    ensures
        r ==> exists|pos: BlockPos| #[trigger] in_repellent_range(center, pos) && repels.ensures((&pos,), true),
        !r ==> forall|pos: BlockPos| #[trigger] in_repellent_range(center, pos) ==> repels.ensures((&pos,), false),
{
    let horizontal = PiglinAi::REPELLENT_DETECTION_RANGE_HORIZONTAL;
    let vertical = PiglinAi::REPELLENT_DETECTION_RANGE_VERTICAL;
    let mut dy: i32 = -vertical;
    while dy <= vertical
        invariant
            -vertical <= dy <= vertical + 1,
            horizontal == PiglinAi::REPELLENT_DETECTION_RANGE_HORIZONTAL,
            vertical == PiglinAi::REPELLENT_DETECTION_RANGE_VERTICAL,
            total_tester(*repels),
            i32::MIN + 8 <= center.x <= i32::MAX - 8,
            i32::MIN + 4 <= center.y <= i32::MAX - 4,
            i32::MIN + 8 <= center.z <= i32::MAX - 8,
            forall|pos: BlockPos| #[trigger] in_repellent_range(center, pos) && scanned_before(
                center,
                pos,
                dy as int,
                -horizontal as int,
                -horizontal as int,
            ) ==> repels.ensures((&pos,), false),
        decreases vertical + 1 - dy,
    {
        let mut dx: i32 = -horizontal;
        while dx <= horizontal
            invariant
                -vertical <= dy <= vertical,
                -horizontal <= dx <= horizontal + 1,
                horizontal == PiglinAi::REPELLENT_DETECTION_RANGE_HORIZONTAL,
                vertical == PiglinAi::REPELLENT_DETECTION_RANGE_VERTICAL,
                total_tester(*repels),
                i32::MIN + 8 <= center.x <= i32::MAX - 8,
                i32::MIN + 4 <= center.y <= i32::MAX - 4,
                i32::MIN + 8 <= center.z <= i32::MAX - 8,
                forall|pos: BlockPos| #[trigger] in_repellent_range(center, pos) && scanned_before(
                    center,
                    pos,
                    dy as int,
                    dx as int,
                    -horizontal as int,
                ) ==> repels.ensures((&pos,), false),
            decreases horizontal + 1 - dx,
        {
            let mut dz: i32 = -horizontal;
            while dz <= horizontal
                invariant
                    -vertical <= dy <= vertical,
                    -horizontal <= dx <= horizontal,
                    -horizontal <= dz <= horizontal + 1,
                    horizontal == PiglinAi::REPELLENT_DETECTION_RANGE_HORIZONTAL,
                    vertical == PiglinAi::REPELLENT_DETECTION_RANGE_VERTICAL,
                    total_tester(*repels),
                    i32::MIN + 8 <= center.x <= i32::MAX - 8,
                    i32::MIN + 4 <= center.y <= i32::MAX - 4,
                    i32::MIN + 8 <= center.z <= i32::MAX - 8,
                    forall|pos: BlockPos| #[trigger] in_repellent_range(center, pos) && scanned_before(
                        center,
                        pos,
                        dy as int,
                        dx as int,
                        dz as int,
                    ) ==> repels.ensures((&pos,), false),
                decreases horizontal + 1 - dz,
            {
                let pos = BlockPos::new(center.x + dx, center.y + dy, center.z + dz);
                let hit = repels(&pos);
                if hit {
                    assert(in_repellent_range(center, pos));
                    return true;
                }
                dz += 1;
            }
            dx += 1;
        }
        dy += 1;
    }
    false
}


/// The saved value when there is one, else `current`.
pub fn saved_or<T: Copy>(saved: Option<T>, current: T) -> (r: T)
    ensures
        r == option_or(saved, current),
{
    match saved {
        Some(v) => v,
        None => current,
    }
}

/// The value of an optional saved field, or `current` when it is absent.
pub open spec fn option_or<T>(saved: Option<T>, current: T) -> T {
    match saved {
        Some(v) => v,
        None => current,
    }
}

/// The time to live of the first saved entry for `memory`.
pub open spec fn lookup_memory(memories: Seq<(ExpiringMemory, i64)>, memory: ExpiringMemory) -> Option<i64>
    decreases memories.len(),
{
    if memories.len() == 0 {
        None
    } else if memories[0].0 == memory {
        Some(memories[0].1)
    } else {
        lookup_memory(memories.drop_first(), memory)
    }
}

/// A saved time to live as a timer: negative values become 0, too large ones `i32::MAX`.
pub open spec fn clamp_ttl(ttl: i64) -> i32 {
    if ttl < 0 {
        0
    } else if ttl > i32::MAX {
        i32::MAX
    } else {
        ttl as i32
    }
}

pub fn clamp_ttl_exec(ttl: i64) -> (r: i32)
    ensures
        r == clamp_ttl(ttl),
{
    if ttl < 0 {
        0
    } else if ttl > 0x7fff_ffffi64 {
        i32::MAX
    } else {
        ttl as i32
    }
}

/// The time to live of the first entry for `memory`.
pub fn find_memory(memories: &Vec<(ExpiringMemory, i64)>, memory: ExpiringMemory) -> (r: Option<i64>)
    ensures
        r == lookup_memory(memories@, memory),
{
    let mut i: usize = 0;
    assert(memories@.subrange(0, memories@.len() as int) == memories@);
    while i < memories.len()
        invariant
            0 <= i <= memories@.len(),
            lookup_memory(memories@, memory) == lookup_memory(
                memories@.subrange(i as int, memories@.len() as int),
                memory,
            ),
        decreases memories@.len() - i,
    {
        let entry = memories[i];
        let ghost rest = memories@.subrange(i as int, memories@.len() as int);
        assert(rest[0] == entry);
        assert(rest.drop_first() == memories@.subrange(i + 1, memories@.len() as int));
        if entry.0 == memory {
            return Some(entry.1);
        }
        i += 1;
    }
    None
}

/// A copy of the stacks.
pub fn copy_stacks(items: &Vec<ItemStack>) -> (r: Vec<ItemStack>)
    ensures
        r@ == items@,
{
    let mut copy = Vec::new();
    let mut i: usize = 0;
    while i < items.len()
        invariant
            0 <= i <= items@.len(),
            copy@ == items@.take(i as int),
        decreases items@.len() - i,
    {
        copy.push(items[i]);
        i += 1;
    }
    assert(items@.take(items@.len() as int) == items@);
    copy
}

/// The non-empty stacks, in order.
pub fn nonempty_copy(items: &Vec<ItemStack>) -> (r: Vec<ItemStack>)
    ensures
        r@ == nonempty_stacks(items@),
{
    let mut copy = Vec::new();
    let mut i: usize = 0;
    while i < items.len()
        invariant
            0 <= i <= items@.len(),
            copy@ == nonempty_stacks(items@.take(i as int)),
        decreases items@.len() - i,
    {
        let item = items[i];
        assert(items@.take(i + 1).drop_last() == items@.take(i as int));
        if !item.is_empty() {
            copy.push(item);
        }
        i += 1;
    }
    assert(items@.take(items@.len() as int) == items@);
    copy
}


/// A timer after one tick: it counts down to zero and stays there.
pub open spec fn count_down(timer: i32) -> i32 {
    if timer > 0 {
        (timer - 1) as i32
    } else {
        timer
    }
}

/// Counts a timer down by one tick.
pub fn count_down_exec(timer: i32) -> (r: i32)
    ensures
        r == count_down(timer),
{
    if timer > 0 {
        timer - 1
    } else {
        timer
    }
}


/// The non-empty stacks of `stacks`, in order.
pub open spec fn nonempty_stacks(stacks: Seq<ItemStack>) -> Seq<ItemStack>
    decreases stacks.len(),
{
    if stacks.len() == 0 {
        Seq::empty()
    } else {
        let earlier = nonempty_stacks(stacks.drop_last());
        if stacks.last().is_empty_spec() {
            earlier
        } else {
            earlier.push(stacks.last())
        }
    }
}

/// Nothing remembered, nothing carried, no flag set: the state of a new piglin in these
/// respects.
pub open spec fn blank_persisted_state(p: PiglinEntity) -> bool {
    &&& p.admire_timer == 0 && p.admiring_disabled_timer == 0 && p.hunt_cooldown_timer == 0
    &&& !p.immune_to_zombification && p.time_in_overworld == 0 && !p.is_baby
    &&& !p.cannot_hunt && !p.is_charging_crossbow && !p.is_dancing
    &&& p.inventory@.len() == 0
}

/// Saving a piglin and loading the data into a blank one restores its memories, flags, time
/// in the overworld and (non-empty) inventory, and whether it can hunt now. The piglin's timers
/// must not be negative. The "cannot hunt" flag itself comes back when the piglin has not
/// hunted recently; one that is allowed to hunt but hunted recently comes back as one that
/// cannot hunt, since the data only says whether it can hunt now.
pub proof fn lemma_saved_data_round_trip(
    piglin: PiglinEntity,
    nbt: PiglinNbt,
    blank: PiglinEntity,
    loaded: PiglinEntity,
)
    requires
        piglin.admire_timer >= 0,
        piglin.admiring_disabled_timer >= 0,
        piglin.hunt_cooldown_timer >= 0,
        piglin.time_in_overworld >= 0,
        piglin.saves_as(nbt),
        blank_persisted_state(blank),
        blank.loads_as(nbt, loaded),
    ensures
        loaded.admire_timer == piglin.admire_timer,
        loaded.admiring_disabled_timer == piglin.admiring_disabled_timer,
        loaded.hunt_cooldown_timer == piglin.hunt_cooldown_timer,
        loaded.immune_to_zombification == piglin.immune_to_zombification,
        loaded.time_in_overworld == piglin.time_in_overworld,
        loaded.is_baby == piglin.is_baby,
        loaded.can_hunt_spec() == piglin.can_hunt_spec(),
        piglin.hunt_cooldown_timer == 0 ==> loaded.cannot_hunt == piglin.cannot_hunt,
        loaded.is_charging_crossbow == piglin.is_charging_crossbow,
        loaded.is_dancing == piglin.is_dancing,
        loaded.inventory@ == nonempty_stacks(piglin.inventory@),
{
    reveal_with_fuel(lookup_memory, 4);
    let ms = piglin.written_memories();
    let a = piglin.written_memory(ExpiringMemory::AdmiringItem);
    let b = piglin.written_memory(ExpiringMemory::AdmiringDisabled);
    let c = piglin.written_memory(ExpiringMemory::HuntedRecently);
    assert(ms == a + b + c);
    assert(lookup_memory(ms, ExpiringMemory::AdmiringItem) == (if piglin.admire_timer > 0 {
        Some(piglin.admire_timer as i64)
    } else {
        None
    })) by {
        if piglin.admire_timer > 0 {
            assert(ms[0] == (ExpiringMemory::AdmiringItem, piglin.admire_timer as i64));
        } else {
            lemma_lookup_absent(b + c, ExpiringMemory::AdmiringItem);
            assert(ms == b + c);
        }
    }
    assert(lookup_memory(ms, ExpiringMemory::AdmiringDisabled) == (
    if piglin.admiring_disabled_timer > 0 {
        Some(piglin.admiring_disabled_timer as i64)
    } else {
        None
    })) by {
        lemma_lookup_skip(a, b + c, ExpiringMemory::AdmiringDisabled);
        assert(ms == a + (b + c));
        if piglin.admiring_disabled_timer > 0 {
            assert((b + c)[0] == (ExpiringMemory::AdmiringDisabled, piglin.admiring_disabled_timer as i64));
        } else {
            lemma_lookup_absent(c, ExpiringMemory::AdmiringDisabled);
            assert(b + c == c);
        }
    }
    assert(lookup_memory(ms, ExpiringMemory::HuntedRecently) == (if piglin.hunt_cooldown_timer
        > 0 {
        Some(piglin.hunt_cooldown_timer as i64)
    } else {
        None
    })) by {
        lemma_lookup_skip(a + b, c, ExpiringMemory::HuntedRecently);
        if piglin.hunt_cooldown_timer > 0 {
            assert(c[0] == (ExpiringMemory::HuntedRecently, piglin.hunt_cooldown_timer as i64));
        }
    }
}

/// A memory whose key appears nowhere in the entries is not found.
pub proof fn lemma_lookup_absent(ms: Seq<(ExpiringMemory, i64)>, memory: ExpiringMemory)
    requires
        forall|i: int| 0 <= i < ms.len() ==> (#[trigger] ms[i]).0 != memory,
    ensures
        lookup_memory(ms, memory) is None,
    decreases ms.len(),
{
    if ms.len() > 0 {
        lemma_lookup_absent(ms.drop_first(), memory);
    }
}

/// Entries for other memories in front do not change what is found.
pub proof fn lemma_lookup_skip(front: Seq<(ExpiringMemory, i64)>, rest: Seq<(ExpiringMemory, i64)>, memory: ExpiringMemory)
    requires
        forall|i: int| 0 <= i < front.len() ==> (#[trigger] front[i]).0 != memory,
    ensures
        lookup_memory(front + rest, memory) == lookup_memory(rest, memory),
    decreases front.len(),
{
    if front.len() > 0 {
        lemma_lookup_skip(front.drop_first(), rest, memory);
        assert((front + rest).drop_first() == front.drop_first() + rest);
    } else {
        assert(front + rest == rest);
    }
}

/// Admiring comes before fighting, fighting before celebrating: a piglin admiring an item is in
/// the admiring activity whatever its target, one that is not admiring but has a target
/// fights, and one that does neither celebrates while its celebration lasts. A piglin that
/// switches to admiring announces it with the admiring sound (unless it is turning into a
/// zombified piglin), and one that switches to fighting with the angry sound.
pub proof fn lemma_activity_priority(piglin: PiglinEntity, converting: bool, sees_loved: bool)
    ensures
        piglin.admire_timer > 0 ==> piglin.current_activity_spec() == PiglinActivity::AdmireItem,
        piglin.admire_timer <= 0 && piglin.mob_entity.has_target ==> piglin.current_activity_spec()
            == PiglinActivity::Fight,
        piglin.admire_timer <= 0 && !piglin.mob_entity.has_target && piglin.celebration_timer > 0
            ==> piglin.current_activity_spec() == PiglinActivity::Celebrate,
        piglin.admire_timer <= 0 && !piglin.mob_entity.has_target && piglin.celebration_timer <= 0
            ==> piglin.current_activity_spec() == PiglinActivity::Idle,
        piglin.admire_timer > 0 && !converting ==> activity_sound(
            &piglin,
            piglin.current_activity_spec(),
            converting,
            sees_loved,
        ) == PiglinSound::AdmiringItem,
        piglin.admire_timer <= 0 && piglin.mob_entity.has_target ==> activity_sound(
            &piglin,
            piglin.current_activity_spec(),
            converting,
            sees_loved,
        ) == PiglinSound::Angry,
{
}

} // verus!
