use boar_game::config::{
    BOAR_X, BOAR_Y, BOTTOM_WALL, HOUSE_X, HOUSE_Y, LEFT_WALL, MOVE_STEP, PLAYER_START_X,
    PLAYER_START_Y, RIGHT_WALL, TOP_WALL, ZOOM_START,
};
use boar_game::entity::{EntityKind, Reaction};
use boar_game::input::InputState;
use boar_game::world::{find_player, ConfigError, World};

fn no_keys() -> InputState {
    InputState::default()
}

#[test]
fn the_standard_world_has_seven_entities() {
    let w = World::new();
    assert_eq!(w.entities.len(), 7);
    let player = &w.entities[0];
    assert!(player.is_player);
    assert_eq!((player.x, player.y), (PLAYER_START_X, PLAYER_START_Y));
    assert_eq!(player.health, Some(100));
    let house = &w.entities[1];
    assert_eq!(house.kind, Some(EntityKind::House));
    assert_eq!((house.x, house.y), (HOUSE_X, HOUSE_Y));
    let boar = &w.entities[2];
    assert_eq!(boar.kind, Some(EntityKind::Boar));
    assert_eq!(boar.health, Some(40));
    assert_eq!(w.camera.zoom, ZOOM_START);
}

#[test]
fn the_walls_stand_on_the_edge_midpoints() {
    let w = World::new();
    let coords: Vec<(i64, i64)> = w.entities[3..7].iter().map(|e| (e.x, e.y)).collect();
    assert_eq!(coords, vec![(0, TOP_WALL), (LEFT_WALL, 0), (0, BOTTOM_WALL), (RIGHT_WALL, 0)]);
    for wall in &w.entities[3..7] {
        assert!(wall.is_collider);
        assert_eq!(wall.kind, None);
        assert!(!wall.is_player);
    }
}

#[test]
fn idle_ticks_at_world_center_change_nothing() {
    let mut w = World::new();
    w.entities[0].x = 0;
    w.entities[0].y = 0;
    for _ in 0..50 {
        let report = w.tick(&no_keys()).unwrap();
        assert_eq!((w.entities[0].x, w.entities[0].y), (0, 0));
        assert_eq!(report.contacts.len(), 0);
        assert_eq!(report.reactions, vec![]);
    }
}

#[test]
fn overshooting_player_lands_exactly_on_the_left_bound() {
    let mut w = World::new();
    let min_x = w.bound_box.min_x;
    w.entities[0].x = min_x - 20;
    w.entities[0].y = 0;
    let input = InputState { left: true, ..no_keys() };
    w.tick(&input).unwrap();
    assert_eq!(w.entities[0].x, min_x);
    assert_eq!(w.entities[0].y, 0);
}

#[test]
fn standing_on_the_house_fires_one_contact_and_one_reaction() {
    let mut w = World::new();
    w.entities[0].x = HOUSE_X;
    w.entities[0].y = HOUSE_Y;
    let report = w.tick(&no_keys()).unwrap();
    assert_eq!(report.contacts.len(), 1);
    assert_eq!(
        report.reactions,
        vec![Reaction::SpawnLabel { kind: EntityKind::House, x: HOUSE_X, y: HOUSE_Y }]
    );
}

#[test]
fn staying_on_the_house_fires_again_every_tick() {
    let mut w = World::new();
    w.entities[0].x = HOUSE_X;
    w.entities[0].y = HOUSE_Y;
    for _ in 0..3 {
        let report = w.tick(&no_keys()).unwrap();
        assert_eq!(report.contacts.len(), 1);
        assert_eq!(report.reactions.len(), 1);
    }
}

#[test]
fn touching_the_boar_reports_an_unhandled_reaction() {
    let mut w = World::new();
    w.entities[0].x = BOAR_X;
    w.entities[0].y = BOAR_Y;
    let report = w.tick(&no_keys()).unwrap();
    assert_eq!(report.contacts.len(), 1);
    assert_eq!(report.reactions, vec![Reaction::NotYetHandled]);
}

#[test]
fn touching_a_wall_emits_an_event_but_no_reaction() {
    let mut w = World::new();
    // An idle tick clamps the player from the top wall's midpoint down onto
    // the bound box's upper edge, still within contact range of the wall.
    w.entities[0].x = 0;
    w.entities[0].y = TOP_WALL;
    let report = w.tick(&no_keys()).unwrap();
    assert_eq!(w.entities[0].y, w.bound_box.max_y);
    assert_eq!(report.contacts.len(), 1);
    assert_eq!(report.reactions, vec![]);
}

#[test]
fn a_world_without_a_player_halts_with_no_player() {
    let mut w = World::new();
    w.entities[0].is_player = false;
    let before = w.entities.clone();
    assert_eq!(w.tick(&no_keys()), Err(ConfigError::NoPlayer));
    assert_eq!(w.entities, before);
}

#[test]
fn a_world_with_two_players_halts_with_multiple_players() {
    let mut w = World::new();
    w.entities[2].is_player = true;
    assert_eq!(w.tick(&no_keys()), Err(ConfigError::MultiplePlayers));
}

#[test]
fn find_player_returns_the_single_player_row() {
    let w = World::new();
    assert_eq!(find_player(&w.entities), Ok(0));
}

#[test]
fn the_camera_moves_with_the_tick() {
    let mut w = World::new();
    let input = InputState { right: true, zoom_out: true, ..no_keys() };
    let start_x = w.camera.x;
    w.tick(&input).unwrap();
    assert_eq!(w.camera.x, start_x + MOVE_STEP);
    assert_eq!(w.camera.zoom, 1000);
}

#[test]
fn held_left_never_carries_the_player_out_of_bounds() {
    let mut w = World::new();
    let input = InputState { left: true, down: true, ..no_keys() };
    for _ in 0..300 {
        w.tick(&input).unwrap();
        let player = &w.entities[0];
        assert!(w.bound_box.min_x <= player.x && player.x <= w.bound_box.max_x);
        assert!(w.bound_box.min_y <= player.y && player.y <= w.bound_box.max_y);
    }
    assert_eq!(w.entities[0].x, w.bound_box.min_x);
    assert_eq!(w.entities[0].y, w.bound_box.min_y);
}
