use pumpkin::entity::ai::random_pos::{generate_random_direction as land_direction, is_outside_build_height};
use pumpkin::entity::ai::util::air_and_water_random_pos::accept_candidate;
use pumpkin::entity::ai::util::goal_utils::{is_not_stable, is_outside_limits, is_restricted};
use pumpkin::entity::ai::util::land_random_pos::move_pos_up_out_of_solid;
use pumpkin::entity::ai::util::random_pos::{
    generate_random_direction, move_up_out_of_solid, move_up_to_above_solid,
};
use pumpkin::world::{BlockPos, DimensionHeight};

#[test]
fn move_up_out_of_solid_stops_at_the_first_free_block() {
    let solid = |pos: &BlockPos| pos.y < 68;

    assert_eq!(
        move_up_out_of_solid(BlockPos::new(0, 64, 0), 128, solid),
        BlockPos::new(0, 68, 0)
    );
    // Already free: the position is returned untouched.
    assert_eq!(
        move_up_out_of_solid(BlockPos::new(0, 70, 0), 128, solid),
        BlockPos::new(0, 70, 0)
    );
    // Solid all the way to the build limit: the search stops there.
    assert_eq!(
        move_up_out_of_solid(BlockPos::new(0, 64, 0), 66, solid),
        BlockPos::new(0, 67, 0)
    );
}

#[test]
fn move_up_to_above_solid_rises_through_free_blocks() {
    let solid = |pos: &BlockPos| pos.y < 68 || pos.y == 71;
    // Out of the ground at 68, then up by at most 2 more.
    assert_eq!(
        move_up_to_above_solid(BlockPos::new(1, 64, 1), 2, 128, solid),
        BlockPos::new(1, 70, 1)
    );
    // The ceiling at 71 stops the rise at 70.
    assert_eq!(
        move_up_to_above_solid(BlockPos::new(1, 64, 1), 5, 128, solid),
        BlockPos::new(1, 70, 1)
    );
    // A free start is kept.
    assert_eq!(
        move_up_to_above_solid(BlockPos::new(1, 69, 1), 5, 128, solid),
        BlockPos::new(1, 69, 1)
    );
    // The top of the world stops it too.
    assert_eq!(
        move_up_to_above_solid(BlockPos::new(1, 64, 1), 5, 68, solid),
        BlockPos::new(1, 69, 1)
    );
}

#[test]
fn random_directions_stay_in_range() {
    for _ in 0..200 {
        let d = generate_random_direction(10, 7);
        assert!((-10..=10).contains(&d.x));
        assert!((-7..=7).contains(&d.y));
        assert!((-10..=10).contains(&d.z));
        let e = land_direction(4, 2);
        assert!((-4..=4).contains(&e.x));
        assert!((-2..=2).contains(&e.y));
        assert!((-4..=4).contains(&e.z));
    }
    let zero = generate_random_direction(0, 0);
    assert_eq!((zero.x, zero.y, zero.z), (0, 0, 0));
}

#[test]
fn build_height_limits() {
    let overworld = DimensionHeight { min_y: -64, height: 384 };
    assert!(is_outside_build_height(&overworld, -65));
    assert!(!is_outside_build_height(&overworld, -64));
    assert!(!is_outside_build_height(&overworld, 319));
    assert!(is_outside_build_height(&overworld, 320));
    assert!(is_outside_limits(&BlockPos::new(0, 320, 0), &overworld));
    assert!(!is_outside_limits(&BlockPos::new(0, 0, 0), &overworld));
}

#[test]
fn restriction_and_stability() {
    assert!(is_restricted(true, false));
    assert!(!is_restricted(true, true));
    assert!(!is_restricted(false, false));
    let floor = |pos: &BlockPos| pos.y == 63;
    assert!(!is_not_stable(&BlockPos::new(0, 64, 0), floor));
    assert!(is_not_stable(&BlockPos::new(0, 65, 0), floor));
}

#[test]
fn land_position_rejects_water_and_malus() {
    let dim = DimensionHeight { min_y: 0, height: 256 };
    let solid = |pos: &BlockPos| pos.y < 64;
    let dry = |_: &BlockPos| false;
    assert_eq!(
        move_pos_up_out_of_solid(&dim, BlockPos::new(2, 60, 2), solid, dry, dry),
        Some(BlockPos::new(2, 64, 2))
    );
    let water = |pos: &BlockPos| pos.y == 64;
    assert_eq!(move_pos_up_out_of_solid(&dim, BlockPos::new(2, 60, 2), solid, water, dry), None);
    let malus = |pos: &BlockPos| pos.x == 2;
    assert_eq!(move_pos_up_out_of_solid(&dim, BlockPos::new(2, 60, 2), solid, dry, malus), None);
    assert_eq!(
        pumpkin::entity::ai::random_pos::move_pos_up_out_of_solid(
            &dim,
            BlockPos::new(2, 60, 2),
            solid,
            dry,
            dry
        ),
        Some(BlockPos::new(2, 64, 2))
    );
}

#[test]
fn air_and_water_candidates_are_checked_then_raised() {
    let dim = DimensionHeight { min_y: 0, height: 128 };
    let solid = |p: &BlockPos| p.y == 64 || p.y == 65;
    let malus = |p: &BlockPos| p.x == 9;
    assert_eq!(
        accept_candidate(&dim, BlockPos::new(0, 64, 0), false, true, solid, malus),
        Some(BlockPos::new(0, 66, 0))
    );
    assert_eq!(accept_candidate(&dim, BlockPos::new(0, 128, 0), false, true, solid, malus), None);
    assert_eq!(accept_candidate(&dim, BlockPos::new(0, -1, 0), false, true, solid, malus), None);
    assert_eq!(accept_candidate(&dim, BlockPos::new(0, 64, 0), true, false, solid, malus), None);
    assert_eq!(accept_candidate(&dim, BlockPos::new(0, 64, 0), true, true, solid, malus), Some(BlockPos::new(0, 66, 0)));
    assert_eq!(accept_candidate(&dim, BlockPos::new(9, 70, 0), false, true, solid, malus), None);
}

#[test]
fn raising_above_solid_stops_just_above_the_top() {
    let solid = |p: &BlockPos| p.y < 10;
    assert_eq!(move_up_to_above_solid(BlockPos::new(0, 5, 0), 5, 12, solid), BlockPos::new(0, 13, 0));
}

#[test]
fn ground_candidates_need_solid_ground_below() {
    let dim = DimensionHeight { min_y: 0, height: 128 };
    let solid = |p: &BlockPos| p.y <= 63;
    let malus = |p: &BlockPos| p.x == 9;
    assert!(pumpkin::entity::ai::util::default_random_pos::accept_candidate(&dim, BlockPos::new(0, 64, 0), false, true, solid, malus));
    assert!(!pumpkin::entity::ai::util::default_random_pos::accept_candidate(&dim, BlockPos::new(0, 70, 0), false, true, solid, malus));
    assert!(!pumpkin::entity::ai::util::default_random_pos::accept_candidate(&dim, BlockPos::new(9, 64, 0), false, true, solid, malus));
    assert!(!pumpkin::entity::ai::util::default_random_pos::accept_candidate(&dim, BlockPos::new(0, 64, 0), true, false, solid, malus));
    let water = |p: &BlockPos| p.z == 5;
    assert_eq!(
        pumpkin::entity::ai::util::land_random_pos::accept_candidate(&dim, BlockPos::new(0, 62, 0), false, true, solid, water, malus),
        Some(BlockPos::new(0, 64, 0))
    );
    assert_eq!(
        pumpkin::entity::ai::util::land_random_pos::accept_candidate(&dim, BlockPos::new(0, 62, 5), false, true, solid, water, malus),
        None
    );
    assert_eq!(
        pumpkin::entity::ai::util::hover_random_pos::accept_candidate(&dim, BlockPos::new(0, 62, 0), false, true, 3, solid, water, malus),
        Some(BlockPos::new(0, 67, 0))
    );
    assert_eq!(
        pumpkin::entity::ai::util::hover_random_pos::accept_candidate(&dim, BlockPos::new(0, 80, 0), false, true, 3, solid, water, malus),
        None
    );
}
