//! Entities as the AI logic sees them.
use vstd::prelude::*;

pub mod ai;
pub mod mob;

verus! {

/// The network id of an entity in its world.
pub type EntityId = i32;

/// The entity types the AI logic tells apart; every other type is `Other` with its registry id.
#[derive(Clone, Copy, Debug, PartialEq, Eq, Structural)]
pub enum EntityKind {
    Player,
    Piglin,
    ZombifiedPiglin,
    Zoglin,
    Hoglin,
    Item,
    WitherSkeleton,
    Wither,
    Other(u32),
}

} // verus!
