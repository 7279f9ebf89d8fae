//! What piglins like, want and trade.
use vstd::prelude::*;

use super::piglin::{PiglinActivity, PiglinEntity};
use crate::entity::EntityKind;
use crate::item::{Equipment, ItemKind, ItemStack};
use crate::random::random_below;

verus! {

/// The sounds a piglin makes.
#[derive(Clone, Copy, Debug, PartialEq, Eq, Structural)]
pub enum PiglinSound {
    Angry,
    Retreat,
    AdmiringItem,
    Celebrate,
    Jealous,
    Ambient,
    ConvertedToZombified,
}

/// How many equally likely rolls the barter table has.
pub const BARTER_ROLLS: i32 = 459;

/// The item a barter roll in `0..459` gives.
pub open spec fn barter_kind(roll: int) -> ItemKind {
    if roll < 5 {
        ItemKind::EnchantedBook
    } else if roll < 13 {
        ItemKind::IronBoots
    } else if roll < 21 {
        ItemKind::SplashPotion
    } else if roll < 39 {
        ItemKind::Potion
    } else if roll < 49 {
        ItemKind::IronNugget
    } else if roll < 59 {
        ItemKind::EnderPearl
    } else if roll < 79 {
        ItemKind::StringItem
    } else if roll < 99 {
        ItemKind::Quartz
    } else if roll < 139 {
        ItemKind::Obsidian
    } else if roll < 179 {
        ItemKind::CryingObsidian
    } else if roll < 219 {
        ItemKind::FireCharge
    } else if roll < 259 {
        ItemKind::Leather
    } else if roll < 299 {
        ItemKind::SoulSand
    } else if roll < 339 {
        ItemKind::NetherBrick
    } else if roll < 379 {
        ItemKind::SpectralArrow
    } else if roll < 419 {
        ItemKind::Gravel
    } else {
        ItemKind::Blackstone
    }
}

/// The fewest and most of `kind` one barter gives.
pub open spec fn barter_count_range(kind: ItemKind) -> (int, int) {
    match kind {
        ItemKind::IronNugget => (10, 36),
        ItemKind::EnderPearl => (2, 4),
        ItemKind::StringItem => (3, 9),
        ItemKind::Quartz => (5, 12),
        ItemKind::CryingObsidian => (1, 3),
        ItemKind::Leather => (2, 4),
        ItemKind::SoulSand => (2, 8),
        ItemKind::NetherBrick => (2, 8),
        ItemKind::SpectralArrow => (6, 12),
        ItemKind::Gravel => (8, 16),
        ItemKind::Blackstone => (8, 16),
        _ => (1, 1),
    }
}

/// The stacks a barter can give: one stack of an item of the table, in its count range.
pub open spec fn is_barter_outcome(items: Seq<ItemStack>) -> bool {
    &&& items.len() == 1
    &&& exists|roll: int| 0 <= roll < BARTER_ROLLS && #[trigger] barter_kind(roll) == items[0].item
    &&& barter_count_range(items[0].item).0 <= items[0].item_count <= barter_count_range(
        items[0].item,
    ).1
    &&& items[0] == ItemStack::of_spec(items[0].item_count, items[0].item)
}

/// Whether `stack` is a loved item.
pub open spec fn loved(stack: ItemStack) -> bool {
    stack.tags.piglin_loved
}

/// A stack held or worn that counts as piglin-safe armour.
pub open spec fn safe_armor(stack: ItemStack) -> bool {
    !stack.is_empty_spec() && (stack.tags.piglin_safe_armor || stack.tags.piglin_loved)
}

/// What a piglin wants to pick up, in the order the checks are made. `generic_replace` is
/// whether the ordinary mob rules would swap the item in for what the piglin holds in its slot.
pub open spec fn wants_to_pickup_spec(
    piglin: &PiglinEntity,
    item: ItemStack,
    generic_replace: bool,
) -> bool {
    let off_hand_free = {
        let off = piglin.mob_entity.equipment.off_hand;
        off.is_empty_spec() || !loved(off)
    };
    let has_space = piglin.can_add_to_inventory_spec(item);
    if piglin.is_baby && item.tags.ignored_by_piglin_babies {
        false
    } else if item.tags.piglin_repellent {
        false
    } else if piglin.admiring_disabled_timer > 0 && piglin.mob_entity.has_target {
        false
    } else if item.item == ItemKind::GoldIngot {
        off_hand_free
    } else if item.item == ItemKind::GoldNugget {
        has_space
    } else if item.tags.piglin_food {
        piglin.eat_cooldown_timer <= 0 && has_space
    } else if !loved(item) {
        piglin.can_replace_current_item_for_spec(item, generic_replace)
    } else {
        off_hand_free && has_space
    }
}

/// The sound of `activity`: anger while fighting, retreat while turning into a zombified
/// piglin, then by activity, then jealousy of a player holding gold, retreat near a repellent,
/// and the ambient sound otherwise.
pub open spec fn activity_sound(
    piglin: &PiglinEntity,
    activity: PiglinActivity,
    converting: bool,
    sees_player_holding_loved: bool,
) -> PiglinSound {
    if activity == PiglinActivity::Fight {
        PiglinSound::Angry
    } else if converting {
        PiglinSound::Retreat
    } else if activity == PiglinActivity::AdmireItem {
        PiglinSound::AdmiringItem
    } else if activity == PiglinActivity::Celebrate {
        PiglinSound::Celebrate
    } else if sees_player_holding_loved {
        PiglinSound::Jealous
    } else if piglin.near_repellent {
        PiglinSound::Retreat
    } else {
        PiglinSound::Ambient
    }
}

pub struct PiglinAi;

impl PiglinAi {
    pub const REPELLENT_DETECTION_RANGE_HORIZONTAL: i32 = 8;

    pub const REPELLENT_DETECTION_RANGE_VERTICAL: i32 = 4;

    pub const ANGER_DURATION: i32 = 600;

    pub const ADMIRE_DURATION: i32 = 119;

    pub const ADMIRING_DISABLED_DURATION: i32 = 400;

    pub const EAT_COOLDOWN: i32 = 200;

    pub const BABY_FLEE_DURATION: i32 = 100;

    pub const CELEBRATION_TIME: i32 = 300;

    pub const MIN_TIME_BETWEEN_HUNTS: i32 = 600;

    pub const MAX_TIME_BETWEEN_HUNTS: i32 = 2400;

    pub const SENSOR_SCAN_INTERVAL: i64 = 20;

    pub const MAX_TIME_TRYING_TO_REACH_ITEM: i32 = 200;

    pub const DISABLE_WALK_TO_ADMIRE_DURATION: i32 = 200;

    pub const RANDOM_THROW_POS_RANGE_HORIZONTAL: i32 = 4;

    pub const RANDOM_THROW_POS_RANGE_VERTICAL: i32 = 2;

    /// Gold ingots are what piglins barter for.
    pub fn is_barter_currency(item_stack: &ItemStack) -> (r: bool)
        ensures
            r == (item_stack.item == ItemKind::GoldIngot),
    {
        item_stack.item == ItemKind::GoldIngot
    }

    pub fn is_loved_item(item_stack: &ItemStack) -> (r: bool)
        ensures
            r == loved(*item_stack),
    {
        item_stack.tags.piglin_loved
    }

    pub fn is_food(item_stack: &ItemStack) -> (r: bool)
        ensures
            r == item_stack.tags.piglin_food,
    {
        item_stack.tags.piglin_food
    }

    /// Zombified piglins and zoglins.
    pub fn is_zombified(entity_type: EntityKind) -> (r: bool)
        ensures
            r == (entity_type == EntityKind::ZombifiedPiglin || entity_type == EntityKind::Zoglin),
    {
        entity_type == EntityKind::ZombifiedPiglin || entity_type == EntityKind::Zoglin
    }

    /// Some armour piece is piglin-safe armour or a loved item.
    pub fn is_wearing_safe_armor(equipment: &Equipment) -> (r: bool)
        ensures
            r == (safe_armor(equipment.head) || safe_armor(equipment.chest) || safe_armor(
                equipment.legs,
            ) || safe_armor(equipment.feet)),
    {
        let pieces = [equipment.head, equipment.chest, equipment.legs, equipment.feet];
        let mut i: usize = 0;
        while i < 4
            invariant
                0 <= i <= 4,
                pieces@ == seq![equipment.head, equipment.chest, equipment.legs, equipment.feet],
                forall|j: int| 0 <= j < i ==> !safe_armor(#[trigger] pieces@[j]),
            decreases 4 - i,
        {
            let stack = pieces[i];
            if !stack.is_empty() && (stack.tags.piglin_safe_armor || stack.tags.piglin_loved) {
                assert(safe_armor(pieces@[i as int]));
                return true;
            }
            i += 1;
        }
        assert(!safe_armor(pieces@[0]) && !safe_armor(pieces@[1]) && !safe_armor(pieces@[2])
            && !safe_armor(pieces@[3]));
        false
    }

    /// A loved item in either hand.
    pub fn is_holding_loved_item(equipment: &Equipment) -> (r: bool)
        ensures
            r == ((!equipment.main_hand.is_empty_spec() && loved(equipment.main_hand)) || (
            !equipment.off_hand.is_empty_spec() && loved(equipment.off_hand))),
    {
        (!equipment.main_hand.is_empty() && Self::is_loved_item(&equipment.main_hand)) || (
        !equipment.off_hand.is_empty() && Self::is_loved_item(&equipment.off_hand))
    }

    /// The player holds a loved item in its main or off hand.
    pub fn is_player_holding_loved_item(player: &Equipment) -> (r: bool)
        ensures
            r == (loved(player.main_hand) || loved(player.off_hand)),
    {
        Self::is_loved_item(&player.main_hand) || Self::is_loved_item(&player.off_hand)
    }

    pub fn is_admiring_disabled(piglin: &PiglinEntity) -> (r: bool)
        ensures
            r == (piglin.admiring_disabled_timer > 0),
    {
        piglin.is_admiring_disabled()
    }

    /// An adult that is free to admire takes gold ingots offered to it.
    pub fn can_admire(piglin: &PiglinEntity, item_stack: &ItemStack) -> (r: bool)
        ensures
            r == (piglin.admiring_disabled_timer <= 0 && piglin.admire_timer <= 0
                && !piglin.is_baby && item_stack.item == ItemKind::GoldIngot),
    {
        !Self::is_admiring_disabled(piglin) && !piglin.is_admiring() && piglin.is_adult()
            && Self::is_barter_currency(item_stack)
    }

    pub fn is_not_holding_loved_item_in_off_hand(piglin: &PiglinEntity) -> (r: bool)
        ensures
            r == (piglin.mob_entity.equipment.off_hand.is_empty_spec() || !loved(
                piglin.mob_entity.equipment.off_hand,
            )),
    {
        let off_hand = piglin.off_hand_item();
        off_hand.is_empty() || !Self::is_loved_item(&off_hand)
    }

    /// Whether the piglin picks up `item_stack`. `generic_replace` is whether the ordinary
    /// mob rules would swap it in for what the piglin holds in the item's slot.
    pub fn wants_to_pickup(piglin: &PiglinEntity, item_stack: &ItemStack, generic_replace: bool) -> (r: bool)
        ensures
            r == wants_to_pickup_spec(piglin, *item_stack, generic_replace),
    {
        if piglin.is_baby() && item_stack.tags.ignored_by_piglin_babies {
            return false;
        }
        if item_stack.tags.piglin_repellent {
            return false;
        }
        if piglin.is_admiring_disabled() && piglin.has_attack_target() {
            return false;
        }
        if Self::is_barter_currency(item_stack) {
            return Self::is_not_holding_loved_item_in_off_hand(piglin);
        }
        let has_space = piglin.can_add_to_inventory(item_stack);
        if item_stack.item == ItemKind::GoldNugget {
            return has_space;
        }
        if Self::is_food(item_stack) {
            return !piglin.has_eaten_recently() && has_space;
        }
        if !Self::is_loved_item(item_stack) {
            return piglin.can_replace_current_item_for(item_stack, generic_replace);
        }
        Self::is_not_holding_loved_item_in_off_hand(piglin) && has_space
    }

    /// The item of a barter roll and its count range.
    pub fn barter_entry(roll: i32) -> (r: (ItemKind, u8, u8))
        requires
            0 <= roll < BARTER_ROLLS,
        ensures
            r.0 == barter_kind(roll as int),
            r.1 == barter_count_range(r.0).0,
            r.2 == barter_count_range(r.0).1,
    {
        if roll < 5 {
            (ItemKind::EnchantedBook, 1, 1)
        } else if roll < 13 {
            (ItemKind::IronBoots, 1, 1)
        } else if roll < 21 {
            (ItemKind::SplashPotion, 1, 1)
        } else if roll < 39 {
            (ItemKind::Potion, 1, 1)
        } else if roll < 49 {
            (ItemKind::IronNugget, 10, 36)
        } else if roll < 59 {
            (ItemKind::EnderPearl, 2, 4)
        } else if roll < 79 {
            (ItemKind::StringItem, 3, 9)
        } else if roll < 99 {
            (ItemKind::Quartz, 5, 12)
        } else if roll < 139 {
            (ItemKind::Obsidian, 1, 1)
        } else if roll < 179 {
            (ItemKind::CryingObsidian, 1, 3)
        } else if roll < 219 {
            (ItemKind::FireCharge, 1, 1)
        } else if roll < 259 {
            (ItemKind::Leather, 2, 4)
        } else if roll < 299 {
            (ItemKind::SoulSand, 2, 8)
        } else if roll < 339 {
            (ItemKind::NetherBrick, 2, 8)
        } else if roll < 379 {
            (ItemKind::SpectralArrow, 6, 12)
        } else if roll < 419 {
            (ItemKind::Gravel, 8, 16)
        } else {
            (ItemKind::Blackstone, 8, 16)
        }
    }

    /// What a barter gives for the table roll `roll` and, for items given by the handful, the
    /// count roll `count_roll` (0 for the least, up to the range's width for the most).
    pub fn barter_outcome(roll: i32, count_roll: i32) -> (r: Vec<ItemStack>)
        requires
            0 <= roll < BARTER_ROLLS,
            0 <= count_roll <= barter_count_range(barter_kind(roll as int)).1 - barter_count_range(
                barter_kind(roll as int),
            ).0,
        ensures
            r@ == seq![
                ItemStack::of_spec(
                    (barter_count_range(barter_kind(roll as int)).0 + count_roll) as u8,
                    barter_kind(roll as int),
                ),
            ],
    {
        let (kind, min, _max) = Self::barter_entry(roll);
        let mut items = Vec::new();
        items.push(ItemStack::new(min + count_roll as u8, kind));
        items
    }

    /// Rolls the barter table: one stack of one of its items, in that item's count range.
    pub fn get_barter_response_items() -> (r: Vec<ItemStack>)
        ensures
            is_barter_outcome(r@),
    {
        let roll = random_below(BARTER_ROLLS);
        let (kind, min, max) = Self::barter_entry(roll);
        let count_roll = if max > min {
            random_below((max - min) as i32 + 1)
        } else {
            0
        };
        let r = Self::barter_outcome(roll, count_roll);
        assert(barter_kind(roll as int) == r@[0].item);
        r
    }

    /// The player the piglin sees, if any, holds a loved item.
    pub fn sees_player_holding_loved_item(nearest_visible_player: Option<&Equipment>) -> (r: bool)
        ensures
            r == match nearest_visible_player {
                Some(p) => loved(p.main_hand) || loved(p.off_hand),
                None => false,
            },
    {
        match nearest_visible_player {
            Some(player) => Self::is_player_holding_loved_item(player),
            None => false,
        }
    }

    /// The sound for `activity`. `piglins_zombify` is the dimension's flag; the nearest visible
    /// player is described by what it holds.
    pub fn get_sound_for_activity(
        piglin: &PiglinEntity,
        activity: PiglinActivity,
        piglins_zombify: bool,
        nearest_visible_player: Option<&Equipment>,
    ) -> (r: PiglinSound)
        ensures
            r == activity_sound(
                piglin,
                activity,
                !piglin.immune_to_zombification && !piglin.mob_entity.no_ai && piglins_zombify,
                match nearest_visible_player {
                    Some(p) => loved(p.main_hand) || loved(p.off_hand),
                    None => false,
                },
            ),
    {
        if activity == PiglinActivity::Fight {
            return PiglinSound::Angry;
        }
        if piglin.is_converting(piglins_zombify) {
            return PiglinSound::Retreat;
        }
        match activity {
            PiglinActivity::AdmireItem => PiglinSound::AdmiringItem,
            PiglinActivity::Celebrate => PiglinSound::Celebrate,
            _ => {
                if Self::sees_player_holding_loved_item(nearest_visible_player) {
                    PiglinSound::Jealous
                } else if piglin.is_near_repellent() {
                    PiglinSound::Retreat
                } else {
                    PiglinSound::Ambient
                }
            },
        }
    }
}

/// The barter table: of the 459 equally likely rolls, each item takes a block as wide as its
/// weight (enchanted book 5, iron boots 8, splash potion 8, potion 18, iron nugget 10, ender
/// pearl 10, string 20, quartz 20, obsidian 40, crying obsidian 40, fire charge 40, leather 40,
/// soul sand 40, nether brick 40, spectral arrow 40, gravel 40, blackstone 40), in that order,
/// and gives a count in its range.
pub proof fn lemma_barter_table()
    ensures
        forall|roll: int| 0 <= roll < 5 ==> #[trigger] barter_kind(roll) == ItemKind::EnchantedBook,
        forall|roll: int| 5 <= roll < 13 ==> #[trigger] barter_kind(roll) == ItemKind::IronBoots,
        forall|roll: int| 13 <= roll < 21 ==> #[trigger] barter_kind(roll) == ItemKind::SplashPotion,
        forall|roll: int| 21 <= roll < 39 ==> #[trigger] barter_kind(roll) == ItemKind::Potion,
        forall|roll: int| 39 <= roll < 49 ==> #[trigger] barter_kind(roll) == ItemKind::IronNugget,
        forall|roll: int| 49 <= roll < 59 ==> #[trigger] barter_kind(roll) == ItemKind::EnderPearl,
        forall|roll: int| 59 <= roll < 79 ==> #[trigger] barter_kind(roll) == ItemKind::StringItem,
        forall|roll: int| 79 <= roll < 99 ==> #[trigger] barter_kind(roll) == ItemKind::Quartz,
        forall|roll: int| 99 <= roll < 139 ==> #[trigger] barter_kind(roll) == ItemKind::Obsidian,
        forall|roll: int| 139 <= roll < 179 ==> #[trigger] barter_kind(roll) == ItemKind::CryingObsidian,
        forall|roll: int| 179 <= roll < 219 ==> #[trigger] barter_kind(roll) == ItemKind::FireCharge,
        forall|roll: int| 219 <= roll < 259 ==> #[trigger] barter_kind(roll) == ItemKind::Leather,
        forall|roll: int| 259 <= roll < 299 ==> #[trigger] barter_kind(roll) == ItemKind::SoulSand,
        forall|roll: int| 299 <= roll < 339 ==> #[trigger] barter_kind(roll) == ItemKind::NetherBrick,
        forall|roll: int| 339 <= roll < 379 ==> #[trigger] barter_kind(roll) == ItemKind::SpectralArrow,
        forall|roll: int| 379 <= roll < 419 ==> #[trigger] barter_kind(roll) == ItemKind::Gravel,
        forall|roll: int| 419 <= roll < 459 ==> #[trigger] barter_kind(roll) == ItemKind::Blackstone,
        barter_count_range(ItemKind::EnchantedBook) == (1int, 1int),
        barter_count_range(ItemKind::IronBoots) == (1int, 1int),
        barter_count_range(ItemKind::SplashPotion) == (1int, 1int),
        barter_count_range(ItemKind::Potion) == (1int, 1int),
        barter_count_range(ItemKind::IronNugget) == (10int, 36int),
        barter_count_range(ItemKind::EnderPearl) == (2int, 4int),
        barter_count_range(ItemKind::StringItem) == (3int, 9int),
        barter_count_range(ItemKind::Quartz) == (5int, 12int),
        barter_count_range(ItemKind::Obsidian) == (1int, 1int),
        barter_count_range(ItemKind::CryingObsidian) == (1int, 3int),
        barter_count_range(ItemKind::FireCharge) == (1int, 1int),
        barter_count_range(ItemKind::Leather) == (2int, 4int),
        barter_count_range(ItemKind::SoulSand) == (2int, 8int),
        barter_count_range(ItemKind::NetherBrick) == (2int, 8int),
        barter_count_range(ItemKind::SpectralArrow) == (6int, 12int),
        barter_count_range(ItemKind::Gravel) == (8int, 16int),
        barter_count_range(ItemKind::Blackstone) == (8int, 16int),
{
}

/// A piglin wants a gold ingot exactly when its off hand holds no loved item, unless it is a
/// baby refusing it, it is a repellent, or admiring is disabled during a fight.
pub proof fn lemma_gold_ingot_wanted_with_free_off_hand(
    piglin: &PiglinEntity,
    item: ItemStack,
    generic_replace: bool,
)
    requires
        item.item == ItemKind::GoldIngot,
        !(piglin.is_baby && item.tags.ignored_by_piglin_babies),
        !item.tags.piglin_repellent,
        !(piglin.admiring_disabled_timer > 0 && piglin.mob_entity.has_target),
    ensures
        wants_to_pickup_spec(piglin, item, generic_replace) == (piglin.mob_entity.equipment.off_hand.item
            == ItemKind::Air || piglin.mob_entity.equipment.off_hand.item_count == 0
            || !piglin.mob_entity.equipment.off_hand.tags.piglin_loved),
{
}

/// Any other loved item (not a gold ingot or nugget, not food) is wanted exactly when the off
/// hand holds no loved item and the inventory has room for it; in particular, while a loved
/// item is in the off hand no other loved item is wanted.
pub proof fn lemma_loved_item_wanted_with_free_off_hand(
    piglin: &PiglinEntity,
    item: ItemStack,
    generic_replace: bool,
)
    requires
        item.tags.piglin_loved,
        item.item != ItemKind::GoldIngot,
        item.item != ItemKind::GoldNugget,
        !item.tags.piglin_food,
        !(piglin.is_baby && item.tags.ignored_by_piglin_babies),
        !item.tags.piglin_repellent,
        !(piglin.admiring_disabled_timer > 0 && piglin.mob_entity.has_target),
    ensures
        wants_to_pickup_spec(piglin, item, generic_replace) == ((piglin.mob_entity.equipment.off_hand.item
            == ItemKind::Air || piglin.mob_entity.equipment.off_hand.item_count == 0
            || !piglin.mob_entity.equipment.off_hand.tags.piglin_loved)
            && piglin.can_add_to_inventory_spec(item)),
        piglin.mob_entity.equipment.off_hand.item != ItemKind::Air
            && piglin.mob_entity.equipment.off_hand.item_count > 0
            && piglin.mob_entity.equipment.off_hand.tags.piglin_loved ==> !wants_to_pickup_spec(
            piglin,
            item,
            generic_replace,
        ),
{
}

/// What a piglin never wants: a repellent, an item babies ignore when it is a baby, and
/// anything while admiring is disabled during a fight. Gold nuggets are wanted exactly when
/// they fit in the inventory, and food exactly when the piglin has not eaten recently and it
/// fits, once none of these refusals applies.
pub proof fn lemma_pickup_refusals(piglin: &PiglinEntity, item: ItemStack, generic_replace: bool)
    ensures
        item.tags.piglin_repellent ==> !wants_to_pickup_spec(piglin, item, generic_replace),
        piglin.is_baby && item.tags.ignored_by_piglin_babies ==> !wants_to_pickup_spec(
            piglin,
            item,
            generic_replace,
        ),
        piglin.admiring_disabled_timer > 0 && piglin.mob_entity.has_target
            ==> !wants_to_pickup_spec(piglin, item, generic_replace),
        ({
            let refused = (piglin.is_baby && item.tags.ignored_by_piglin_babies)
                || item.tags.piglin_repellent || (piglin.admiring_disabled_timer > 0
                && piglin.mob_entity.has_target);
            &&& !refused && item.item == ItemKind::GoldNugget ==> wants_to_pickup_spec(
                piglin,
                item,
                generic_replace,
            ) == piglin.can_add_to_inventory_spec(item)
            &&& !refused && item.item != ItemKind::GoldIngot && item.item != ItemKind::GoldNugget
                && item.tags.piglin_food ==> wants_to_pickup_spec(piglin, item, generic_replace) == (
            piglin.eat_cooldown_timer <= 0 && piglin.can_add_to_inventory_spec(item))
        }),
{
}

} // verus!
