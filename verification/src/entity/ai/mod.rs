pub mod goal;
pub mod random_pos;
pub mod sensing;
pub mod util;
