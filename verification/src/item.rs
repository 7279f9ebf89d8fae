//! Item stacks and equipment, as the AI logic reads them.
use vstd::prelude::*;

verus! {

/// The items the AI logic tells apart; every other item is `Other` with its registry id.
#[derive(Clone, Copy, Debug, PartialEq, Eq, Structural)]
pub enum ItemKind {
    Air,
    GoldIngot,
    GoldNugget,
    PiglinHead,
    EnchantedBook,
    IronBoots,
    SplashPotion,
    Potion,
    IronNugget,
    EnderPearl,
    StringItem,
    Quartz,
    Obsidian,
    CryingObsidian,
    FireCharge,
    Leather,
    SoulSand,
    NetherBrick,
    SpectralArrow,
    Gravel,
    Blackstone,
    Crossbow,
    GoldenSpear,
    GoldenSword,
    GoldenHelmet,
    GoldenChestplate,
    GoldenLeggings,
    GoldenBoots,
    Other(u32),
}

/// Where an item is worn or held.
#[derive(Clone, Copy, Debug, PartialEq, Eq, Structural)]
pub enum EquipmentSlot {
    MainHand,
    OffHand,
    Head,
    Chest,
    Legs,
    Feet,
}

/// The item tags the piglin logic reads.
#[derive(Clone, Copy, Debug, PartialEq, Eq, Structural)]
pub struct ItemTags {
    /// `#minecraft:piglin_loved`
    pub piglin_loved: bool,
    /// `#minecraft:piglin_food`
    pub piglin_food: bool,
    /// `#minecraft:piglin_repellents`
    pub piglin_repellent: bool,
    /// `#minecraft:ignored_by_piglin_babies`
    pub ignored_by_piglin_babies: bool,
    /// `#minecraft:piglin_safe_armor`
    pub piglin_safe_armor: bool,
    /// `#minecraft:piglin_preferred_weapons`
    pub piglin_preferred_weapon: bool,
}

impl ItemTags {
    pub open spec fn untagged() -> ItemTags {
        ItemTags {
            piglin_loved: false,
            piglin_food: false,
            piglin_repellent: false,
            ignored_by_piglin_babies: false,
            piglin_safe_armor: false,
            piglin_preferred_weapon: false,
        }
    }

    /// An item in none of the tags.
    pub fn none() -> (r: ItemTags)
        ensures
            r == ItemTags::untagged(),
    {
        ItemTags {
            piglin_loved: false,
            piglin_food: false,
            piglin_repellent: false,
            ignored_by_piglin_babies: false,
            piglin_safe_armor: false,
            piglin_preferred_weapon: false,
        }
    }
}

/// A stack of items: the item, how many, and the properties of the item the AI logic reads.
#[derive(Clone, Copy, Debug, PartialEq, Eq, Structural)]
pub struct ItemStack {
    pub item: ItemKind,
    pub item_count: u8,
    pub max_stack_size: u8,
    pub tags: ItemTags,
    /// The slot the item is equipped in.
    pub slot: EquipmentSlot,
    /// Enchanted with Curse of Binding.
    pub binding_curse: bool,
    /// Has the blocks-attacks component, like a shield.
    pub blocks_attacks: bool,
}

impl ItemKind {
    /// How many of the item fit in a stack, for the items named here; 64 for the others.
    pub open spec fn default_max_stack_size(self) -> u8 {
        match self {
            ItemKind::EnchantedBook | ItemKind::IronBoots | ItemKind::SplashPotion
            | ItemKind::Potion | ItemKind::Crossbow | ItemKind::GoldenSpear
            | ItemKind::GoldenSword | ItemKind::GoldenHelmet | ItemKind::GoldenChestplate
            | ItemKind::GoldenLeggings | ItemKind::GoldenBoots => 1,
            ItemKind::EnderPearl => 16,
            _ => 64,
        }
    }

    /// Where the item is equipped, for the items named here; the main hand for the others.
    pub open spec fn default_slot(self) -> EquipmentSlot {
        match self {
            ItemKind::IronBoots | ItemKind::GoldenBoots => EquipmentSlot::Feet,
            ItemKind::GoldenHelmet | ItemKind::PiglinHead => EquipmentSlot::Head,
            ItemKind::GoldenChestplate => EquipmentSlot::Chest,
            ItemKind::GoldenLeggings => EquipmentSlot::Legs,
            _ => EquipmentSlot::MainHand,
        }
    }
}

impl ItemStack {
    pub open spec fn of_spec(count: u8, item: ItemKind) -> ItemStack {
        ItemStack {
            item,
            item_count: count,
            max_stack_size: item.default_max_stack_size(),
            tags: ItemTags::untagged(),
            slot: item.default_slot(),
            binding_curse: false,
            blocks_attacks: false,
        }
    }

    /// A plain stack of `count` of `item`: in no piglin tag, unenchanted.
    pub fn new(count: u8, item: ItemKind) -> (r: ItemStack)
        ensures
            r == ItemStack::of_spec(count, item),
    {
        let max_stack_size: u8 = match item {
            ItemKind::EnchantedBook | ItemKind::IronBoots | ItemKind::SplashPotion
            | ItemKind::Potion | ItemKind::Crossbow | ItemKind::GoldenSpear
            | ItemKind::GoldenSword | ItemKind::GoldenHelmet | ItemKind::GoldenChestplate
            | ItemKind::GoldenLeggings | ItemKind::GoldenBoots => 1,
            ItemKind::EnderPearl => 16,
            _ => 64,
        };
        let slot = match item {
            ItemKind::IronBoots | ItemKind::GoldenBoots => EquipmentSlot::Feet,
            ItemKind::GoldenHelmet | ItemKind::PiglinHead => EquipmentSlot::Head,
            ItemKind::GoldenChestplate => EquipmentSlot::Chest,
            ItemKind::GoldenLeggings => EquipmentSlot::Legs,
            _ => EquipmentSlot::MainHand,
        };
        ItemStack {
            item,
            item_count: count,
            max_stack_size,
            tags: ItemTags::none(),
            slot,
            binding_curse: false,
            blocks_attacks: false,
        }
    }

    pub open spec fn empty_spec() -> ItemStack {
        ItemStack::of_spec(0, ItemKind::Air)
    }

    /// The empty stack.
    pub fn empty() -> (r: ItemStack)
        ensures
            r == ItemStack::empty_spec(),
    {
        ItemStack::new(0, ItemKind::Air)
    }

    pub open spec fn is_empty_spec(self) -> bool {
        self.item == ItemKind::Air || self.item_count == 0
    }

    /// Air, or no items.
    pub fn is_empty(&self) -> (r: bool)
        ensures
            r == self.is_empty_spec(),
    {
        self.item == ItemKind::Air || self.item_count == 0
    }

    /// The same item with the same components: everything but the count agrees.
    pub open spec fn same_item(self, other: ItemStack) -> bool {
        ItemStack { item_count: 0, ..self } == ItemStack { item_count: 0, ..other }
    }

    pub fn are_items_and_components_equal(&self, other: &ItemStack) -> (r: bool)
        ensures
            r == self.same_item(*other),
    {
        self.item == other.item && self.max_stack_size == other.max_stack_size && self.tags
            == other.tags && self.slot == other.slot && self.binding_curse == other.binding_curse
            && self.blocks_attacks == other.blocks_attacks
    }

    /// The same stack with `count` items.
    pub open spec fn with_count(self, count: int) -> ItemStack {
        ItemStack { item_count: count as u8, ..self }
    }
}

/// What a living entity wears and holds; an empty slot holds an empty stack.
#[derive(Clone, Copy, Debug, PartialEq, Eq, Structural)]
pub struct Equipment {
    pub main_hand: ItemStack,
    pub off_hand: ItemStack,
    pub head: ItemStack,
    pub chest: ItemStack,
    pub legs: ItemStack,
    pub feet: ItemStack,
}

impl Equipment {
    pub open spec fn get_spec(self, slot: EquipmentSlot) -> ItemStack {
        match slot {
            EquipmentSlot::MainHand => self.main_hand,
            EquipmentSlot::OffHand => self.off_hand,
            EquipmentSlot::Head => self.head,
            EquipmentSlot::Chest => self.chest,
            EquipmentSlot::Legs => self.legs,
            EquipmentSlot::Feet => self.feet,
        }
    }

    pub open spec fn set_spec(self, slot: EquipmentSlot, item: ItemStack) -> Equipment {
        match slot {
            EquipmentSlot::MainHand => Equipment { main_hand: item, ..self },
            EquipmentSlot::OffHand => Equipment { off_hand: item, ..self },
            EquipmentSlot::Head => Equipment { head: item, ..self },
            EquipmentSlot::Chest => Equipment { chest: item, ..self },
            EquipmentSlot::Legs => Equipment { legs: item, ..self },
            EquipmentSlot::Feet => Equipment { feet: item, ..self },
        }
    }

    /// Nothing worn or held.
    pub fn empty() -> (r: Equipment)
        ensures
            forall|slot: EquipmentSlot| #[trigger] r.get_spec(slot) == ItemStack::empty_spec(),
    {
        let e = ItemStack::empty();
        Equipment { main_hand: e, off_hand: e, head: e, chest: e, legs: e, feet: e }
    }

    pub fn get(&self, slot: EquipmentSlot) -> (r: ItemStack)
        ensures
            r == self.get_spec(slot),
    {
        match slot {
            EquipmentSlot::MainHand => self.main_hand,
            EquipmentSlot::OffHand => self.off_hand,
            EquipmentSlot::Head => self.head,
            EquipmentSlot::Chest => self.chest,
            EquipmentSlot::Legs => self.legs,
            EquipmentSlot::Feet => self.feet,
        }
    }

    /// Puts `item` in `slot` and returns what was there.
    pub fn put(&mut self, slot: EquipmentSlot, item: ItemStack) -> (r: ItemStack)
        ensures
            r == old(self).get_spec(slot),
            *final(self) == old(self).set_spec(slot, item),
    {
        let previous = self.get(slot);
        match slot {
            EquipmentSlot::MainHand => self.main_hand = item,
            EquipmentSlot::OffHand => self.off_hand = item,
            EquipmentSlot::Head => self.head = item,
            EquipmentSlot::Chest => self.chest = item,
            EquipmentSlot::Legs => self.legs = item,
            EquipmentSlot::Feet => self.feet = item,
        }
        previous
    }
}

} // verus!
