use boar_game::bounds::{bound_box_for, BoundBox, GeometryError, Wall, WallLocation, WorldBounds};
use boar_game::config::{
    BOTTOM_WALL, CONTACT_HALF, LEFT_WALL, PLAYER_HALF_X, PLAYER_HALF_Y, RIGHT_WALL, TOP_WALL,
    WALL_THICKNESS,
};
use boar_game::geom::{clamp_i64, Aabb};

fn standard_bounds() -> WorldBounds {
    WorldBounds::new(TOP_WALL, LEFT_WALL, BOTTOM_WALL, RIGHT_WALL, WALL_THICKNESS).unwrap()
}

#[test]
fn clamp_inside_is_noop() {
    assert_eq!(clamp_i64(5, -10, 10), 5);
    assert_eq!(clamp_i64(-10, -10, 10), -10);
    assert_eq!(clamp_i64(10, -10, 10), 10);
}

#[test]
fn clamp_below_snaps_to_lower_bound() {
    assert_eq!(clamp_i64(-25, -10, 10), -10);
}

#[test]
fn clamp_above_snaps_to_upper_bound() {
    assert_eq!(clamp_i64(99, -10, 10), 10);
}

#[test]
fn reclamping_a_clamped_value_changes_nothing() {
    let once = clamp_i64(-3000, -10, 10);
    assert_eq!(clamp_i64(once, -10, 10), once);
    let once_high = clamp_i64(3000, -10, 10);
    assert_eq!(clamp_i64(once_high, -10, 10), once_high);
}

#[test]
fn overlap_is_symmetric() {
    let a = Aabb { cx: 0, cy: 0, hx: 64, hy: 64 };
    let b = Aabb { cx: 100, cy: 20, hx: 64, hy: 64 };
    assert_eq!(a.overlaps(&b), b.overlaps(&a));
    assert!(a.overlaps(&b));
    let far = Aabb { cx: 1000, cy: 0, hx: 64, hy: 64 };
    assert_eq!(a.overlaps(&far), far.overlaps(&a));
    assert!(!a.overlaps(&far));
}

#[test]
fn touching_edges_do_not_overlap() {
    let a = Aabb { cx: 0, cy: 0, hx: CONTACT_HALF, hy: CONTACT_HALF };
    let b = Aabb { cx: 2 * CONTACT_HALF, cy: 0, hx: CONTACT_HALF, hy: CONTACT_HALF };
    assert!(!a.overlaps(&b));
    assert!(!b.overlaps(&a));
}

#[test]
fn separated_on_one_axis_means_no_contact() {
    let a = Aabb { cx: 0, cy: 0, hx: 64, hy: 64 };
    let b = Aabb { cx: 10, cy: 500, hx: 64, hy: 64 };
    assert!(!a.overlaps(&b));
}

#[test]
fn wall_positions_are_edge_midpoints() {
    let wb = standard_bounds();
    assert_eq!(WallLocation::Top.position(&wb), (0, TOP_WALL));
    assert_eq!(WallLocation::Bottom.position(&wb), (0, BOTTOM_WALL));
    assert_eq!(WallLocation::Left.position(&wb), (LEFT_WALL, 0));
    assert_eq!(WallLocation::Right.position(&wb), (RIGHT_WALL, 0));
}

#[test]
fn wall_sizes_meet_flush_at_corners() {
    let wb = standard_bounds();
    let width = RIGHT_WALL - LEFT_WALL;
    let height = TOP_WALL - BOTTOM_WALL;
    assert_eq!(WallLocation::Top.size(&wb), (width - WALL_THICKNESS, WALL_THICKNESS));
    assert_eq!(WallLocation::Bottom.size(&wb), (width - WALL_THICKNESS, WALL_THICKNESS));
    assert_eq!(WallLocation::Left.size(&wb), (WALL_THICKNESS, height - WALL_THICKNESS));
    assert_eq!(WallLocation::Right.size(&wb), (WALL_THICKNESS, height - WALL_THICKNESS));
}

#[test]
fn placed_wall_carries_position_and_size() {
    let wb = standard_bounds();
    let wall = Wall::new(WallLocation::Left, &wb);
    assert_eq!(wall.center_x, LEFT_WALL);
    assert_eq!(wall.center_y, 0);
    assert_eq!(wall.size_x, WALL_THICKNESS);
    assert_eq!(wall.size_y, TOP_WALL - BOTTOM_WALL - WALL_THICKNESS);
}

#[test]
fn valid_bounds_are_accepted() {
    let wb = standard_bounds();
    assert_eq!(wb.top, TOP_WALL);
    assert_eq!(wb.thickness, WALL_THICKNESS);
}

#[test]
fn inverted_vertical_bounds_are_rejected() {
    assert_eq!(
        WorldBounds::new(-100, LEFT_WALL, 100, RIGHT_WALL, WALL_THICKNESS),
        Err(GeometryError::InvertedVertical)
    );
}

#[test]
fn inverted_horizontal_bounds_are_rejected() {
    assert_eq!(
        WorldBounds::new(TOP_WALL, 100, BOTTOM_WALL, -100, WALL_THICKNESS),
        Err(GeometryError::InvertedHorizontal)
    );
}

#[test]
fn non_positive_thickness_is_rejected() {
    assert_eq!(
        WorldBounds::new(TOP_WALL, LEFT_WALL, BOTTOM_WALL, RIGHT_WALL, 0),
        Err(GeometryError::NonPositiveThickness)
    );
}

#[test]
fn thickness_spanning_the_world_is_rejected() {
    assert_eq!(
        WorldBounds::new(100, -100, -100, 100, 200),
        Err(GeometryError::ThicknessTooLarge)
    );
}

#[test]
fn out_of_range_edges_are_rejected() {
    assert_eq!(
        WorldBounds::new(200_000_000, LEFT_WALL, BOTTOM_WALL, RIGHT_WALL, WALL_THICKNESS),
        Err(GeometryError::OutOfRange)
    );
}

#[test]
fn bound_box_has_inward_margins() {
    let wb = standard_bounds();
    let bb = bound_box_for(&wb, PLAYER_HALF_X, PLAYER_HALF_Y).unwrap();
    assert_eq!(
        bb,
        BoundBox { min_x: -1878, max_x: 1878, min_y: -1022, max_y: 1022 }
    );
}

#[test]
fn oversized_body_is_rejected() {
    let wb = standard_bounds();
    assert_eq!(
        bound_box_for(&wb, 10_000_000, PLAYER_HALF_Y),
        Err(GeometryError::MarginTooLarge)
    );
}
