//! Helpers used by the goals to pick a random destination the navigation can reach.
pub mod air_and_water_random_pos;
pub mod default_random_pos;
pub mod goal_utils;
pub mod hover_random_pos;
pub mod land_random_pos;
pub mod random_pos;
