pub mod inventory;
pub mod piglin;
pub mod piglin_ai;
