use boar_game::bounds::{bound_box_for, WorldBounds};
use boar_game::config::{
    BOTTOM_WALL, LEFT_WALL, MOVE_STEP, PLAYER_HALF_X, PLAYER_HALF_Y, RIGHT_WALL, TOP_WALL,
    WALL_THICKNESS,
};
use boar_game::input::InputState;
use boar_game::movement::step_position;

fn no_keys() -> InputState {
    InputState::default()
}

fn standard_box() -> boar_game::bounds::BoundBox {
    let wb = WorldBounds::new(TOP_WALL, LEFT_WALL, BOTTOM_WALL, RIGHT_WALL, WALL_THICKNESS).unwrap();
    bound_box_for(&wb, PLAYER_HALF_X, PLAYER_HALF_Y).unwrap()
}

#[test]
fn no_keys_means_no_motion() {
    let bb = standard_box();
    assert_eq!(step_position(0, 0, &no_keys(), MOVE_STEP, &bb), (0, 0));
}

#[test]
fn left_key_moves_one_step_left() {
    let bb = standard_box();
    let input = InputState { left: true, ..no_keys() };
    assert_eq!(step_position(0, 0, &input, MOVE_STEP, &bb), (-MOVE_STEP, 0));
}

#[test]
fn opposing_keys_cancel() {
    let bb = standard_box();
    let input = InputState { left: true, right: true, ..no_keys() };
    assert_eq!(step_position(40, -40, &input, MOVE_STEP, &bb), (40, -40));
}

#[test]
fn diagonal_moves_both_axes_unnormalized() {
    let bb = standard_box();
    let input = InputState { right: true, up: true, ..no_keys() };
    assert_eq!(step_position(0, 0, &input, MOVE_STEP, &bb), (MOVE_STEP, MOVE_STEP));
}

#[test]
fn overshooting_the_left_bound_lands_exactly_on_it() {
    let bb = standard_box();
    // Ten units (twenty sub-units) outside the legal box, still pushing left:
    // the tick must land exactly on the bound, not at the raw overshoot.
    let start_x = bb.min_x - 20;
    let input = InputState { left: true, ..no_keys() };
    let (nx, ny) = step_position(start_x, 0, &input, MOVE_STEP, &bb);
    assert_eq!(nx, bb.min_x);
    assert_eq!(ny, 0);
}

#[test]
fn a_long_walk_never_leaves_the_box() {
    let bb = standard_box();
    let mut x = 0;
    let mut y = 0;
    let input = InputState { left: true, up: true, ..no_keys() };
    for _ in 0..500 {
        let next = step_position(x, y, &input, MOVE_STEP, &bb);
        x = next.0;
        y = next.1;
        assert!(bb.min_x <= x && x <= bb.max_x);
        assert!(bb.min_y <= y && y <= bb.max_y);
    }
    assert_eq!(x, bb.min_x);
    assert_eq!(y, bb.max_y);
}
