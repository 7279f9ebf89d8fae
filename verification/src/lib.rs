//! Decision logic of the mob AI: goals, position search helpers, the line of sight cache and the
//! piglin's bartering and admiring behaviour, as state machines over plain values.
pub mod entity;
pub mod item;
pub mod world;
mod random;
