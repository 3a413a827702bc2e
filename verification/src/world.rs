//! The world: the validated geometry, the entity table, the camera, and the
//! tick that advances them.
//!
//! One tick runs in a fixed order: movement first (player, then camera, both
//! clamped into the same bound box), then the collision and interaction pass
//! over the post-movement positions.  The tick demands exactly one player
//! row; zero or several is a fatal configuration error reported to the
//! caller, never guessed around.

use vstd::prelude::*;

use crate::bounds::{
    bound_box_for, bound_max_x, bound_max_y, bound_min_x, bound_min_y, BoundBox, Wall, WallLocation,
    WorldBounds,
};
use crate::camera::{zoom_step, Camera};
use crate::collision::{check_for_collisions, contact_count, reactions_of, TickReport};
use crate::config::{
    BOAR_HEALTH, BOAR_X, BOAR_Y, BOTTOM_WALL, CAMERA_START_X, CAMERA_START_Y, HOUSE_X, HOUSE_Y,
    LEFT_WALL, MOVE_STEP, PLAYER_HALF_X, PLAYER_HALF_Y, PLAYER_START_HEALTH, PLAYER_START_X,
    PLAYER_START_Y, RIGHT_WALL, TOP_WALL, WALL_THICKNESS, ZOOM_START,
};
use crate::entity::{Entity, EntityKind};
use crate::input::InputState;
use crate::movement::{step_axis, step_position};

verus! {

/// A violated setup invariant, fatal to the tick that finds it: the entity
/// table must hold exactly one player row.
#[derive(Clone, Copy, Debug, PartialEq, Eq, Structural)]
pub enum ConfigError {
    /// No row is marked as the player.
    NoPlayer,
    /// More than one row is marked as the player.
    MultiplePlayers,
}

/// How many rows of `s` are marked as the player.
pub open spec fn count_players(s: Seq<Entity>) -> nat
    decreases s.len(),
{
    if s.len() == 0 {
        0
    } else {
        count_players(s.drop_last()) + (if s.last().is_player {
            1nat
        } else {
            0nat
        })
    }
}

/// The index of a player row, meaningful when `count_players(s) == 1`
/// (see `lemma_single_player_index`).
pub open spec fn player_index(s: Seq<Entity>) -> int {
    choose|i: int| 0 <= i < s.len() && s[i].is_player
}

/// Appending a row grows the player count by one exactly when the row is a
/// player.
pub proof fn lemma_count_players_push(s: Seq<Entity>, e: Entity)
    ensures
        count_players(s.push(e)) == count_players(s) + (if e.is_player {
            1nat
        } else {
            0nat
        }),
{
    assert(s.push(e).drop_last() =~= s);
}

/// A player row bounds the count from below.
proof fn lemma_count_players_at_least_one(s: Seq<Entity>, i: int)
    requires
        0 <= i < s.len(),
        s[i].is_player,
    ensures
        count_players(s) >= 1,
    decreases s.len(),
{
    if i < s.len() - 1 {
        lemma_count_players_at_least_one(s.drop_last(), i);
    }
}

/// Two distinct player rows bound the count from below.
proof fn lemma_count_players_at_least_two(s: Seq<Entity>, i: int, j: int)
    requires
        0 <= i < j < s.len(),
        s[i].is_player,
        s[j].is_player,
    ensures
        count_players(s) >= 2,
    decreases s.len(),
{
    if j == s.len() - 1 {
        lemma_count_players_at_least_one(s.drop_last(), i);
    } else {
        lemma_count_players_at_least_two(s.drop_last(), i, j);
    }
}

/// A positive count means some row is a player.
proof fn lemma_count_players_nonzero_some(s: Seq<Entity>)
    requires
        count_players(s) >= 1,
    ensures
        exists|i: int| 0 <= i < s.len() && s[i].is_player,
    decreases s.len(),
{
    if s.last().is_player {
        assert(0 <= s.len() - 1 < s.len() && s[s.len() - 1].is_player);
    } else {
        lemma_count_players_nonzero_some(s.drop_last());
        let i = choose|i: int| 0 <= i < s.drop_last().len() && s.drop_last()[i].is_player;
        assert(0 <= i < s.len() && s[i].is_player);
    }
}

/// With exactly one player row, `player_index` names it and no other row is
/// marked as the player.
pub proof fn lemma_single_player_index(s: Seq<Entity>)
    requires
        count_players(s) == 1,
    ensures
        0 <= player_index(s) < s.len(),
        s[player_index(s)].is_player,
        forall|j: int| 0 <= j < s.len() && #[trigger] s[j].is_player ==> j == player_index(s),
{
    lemma_count_players_nonzero_some(s);
    let p = player_index(s);
    assert(0 <= p < s.len() && s[p].is_player);
    assert forall|j: int| 0 <= j < s.len() && #[trigger] s[j].is_player implies j == p by {
        if j < p {
            lemma_count_players_at_least_two(s, j, p);
        } else if p < j {
            lemma_count_players_at_least_two(s, p, j);
        }
    }
}

/// Find the single player row, or report the violated singularity invariant:
/// `NoPlayer` when no row is marked, `MultiplePlayers` when several are.
pub fn find_player(entities: &Vec<Entity>) -> (r: Result<usize, ConfigError>)
    ensures
        match r {
            Ok(i) => {
                &&& count_players(entities@) == 1
                &&& i < entities@.len()
                &&& entities@[i as int].is_player
            },
            Err(e) => match e {
                ConfigError::NoPlayer => count_players(entities@) == 0,
                ConfigError::MultiplePlayers => count_players(entities@) >= 2,
            },
        },
{
    let mut found: usize = 0;
    let mut n: usize = 0;
    let mut j: usize = 0;
    while j < entities.len()
        invariant
            j <= entities@.len(),
            n <= j,
            n == count_players(entities@.take(j as int)),
            n >= 1 ==> found < j && entities@[found as int].is_player,
        decreases entities@.len() - j,
    {
        if entities[j].is_player {
            if n == 0 {
                found = j;
            }
            n = n + 1;
        }
        proof {
            assert(entities@.take(j + 1).drop_last() =~= entities@.take(j as int));
            assert(entities@.take(j + 1).last() == entities@[j as int]);
        }
        j = j + 1;
    }
    proof {
        assert(entities@.take(entities@.len() as int) =~= entities@);
    }
    if n == 0 {
        Err(ConfigError::NoPlayer)
    } else if n == 1 {
        Ok(found)
    } else {
        Err(ConfigError::MultiplePlayers)
    }
}

/// The whole simulation state: validated geometry, the clamp box derived
/// from it for the player's half-extents, the entity table, and the camera.
pub struct World {
    pub bounds: WorldBounds,
    pub bound_box: BoundBox,
    pub entities: Vec<Entity>,
    pub camera: Camera,
}

/// The player row as it stands after one tick of movement under `input`.
pub open spec fn player_moved(pre: World, input: InputState) -> Entity {
    let s = pre.entities@;
    let i = player_index(s);
    Entity {
        x: step_axis(
            s[i].x as int,
            input.left,
            input.right,
            MOVE_STEP as int,
            pre.bound_box.min_x as int,
            pre.bound_box.max_x as int,
        ) as i64,
        y: step_axis(
            s[i].y as int,
            input.down,
            input.up,
            MOVE_STEP as int,
            pre.bound_box.min_y as int,
            pre.bound_box.max_y as int,
        ) as i64,
        health: s[i].health,
        is_collider: s[i].is_collider,
        kind: s[i].kind,
        is_player: s[i].is_player,
    }
}

/// What a successful tick does: the player row is moved and clamped, the
/// camera pans and zooms from the same key snapshot, every other row and the
/// geometry are untouched, and the report covers exactly the contacts of the
/// post-movement positions.
pub open spec fn tick_post(pre: World, post: World, input: InputState, report: TickReport) -> bool {
    let s = pre.entities@;
    let i = player_index(s);
    let moved = player_moved(pre, input);
    &&& post.bounds == pre.bounds
    &&& post.bound_box == pre.bound_box
    &&& post.entities@ == s.update(i, moved)
    &&& post.camera.x == step_axis(
        pre.camera.x as int,
        input.left,
        input.right,
        MOVE_STEP as int,
        pre.bound_box.min_x as int,
        pre.bound_box.max_x as int,
    )
    &&& post.camera.y == step_axis(
        pre.camera.y as int,
        input.down,
        input.up,
        MOVE_STEP as int,
        pre.bound_box.min_y as int,
        pre.bound_box.max_y as int,
    )
    &&& post.camera.zoom == zoom_step(pre.camera.zoom as int, input.zoom_in, input.zoom_out)
    &&& post.bound_box.contains(moved.x as int, moved.y as int)
    &&& post.bound_box.contains(post.camera.x as int, post.camera.y as int)
    &&& report.contacts@.len() == contact_count(post.entities@, i, moved.x as int, moved.y as int)
    &&& report.reactions@ == reactions_of(post.entities@, i, moved.x as int, moved.y as int)
}

impl World {
    /// Valid geometry, a clamp box derived from it for the player's
    /// half-extents, a well-formed camera, and every entity within the
    /// coordinate limit.
    pub open spec fn wf(self) -> bool {
        &&& self.bounds.wf()
        &&& self.bound_box.wf()
        &&& self.bound_box.min_x == bound_min_x(self.bounds, PLAYER_HALF_X as int)
        &&& self.bound_box.max_x == bound_max_x(self.bounds, PLAYER_HALF_X as int)
        &&& self.bound_box.min_y == bound_min_y(self.bounds, PLAYER_HALF_Y as int)
        &&& self.bound_box.max_y == bound_max_y(self.bounds, PLAYER_HALF_Y as int)
        &&& self.camera.wf()
        &&& forall|i: int| 0 <= i < self.entities@.len() ==> (#[trigger] self.entities@[i]).wf()
    }

    /// The singularity invariant the tick demands: exactly one player row.
    pub open spec fn has_single_player(self) -> bool {
        count_players(self.entities@) == 1
    }

    /// Build the standard game world: the fixed bounds, the player, the
    /// house, the boar, and the four walls as collider rows, with the camera
    /// over the player's spawn point.
    pub fn new() -> (w: World)
        ensures
            w.wf(),
            w.has_single_player(),
            w.bounds == (WorldBounds {
                top: TOP_WALL,
                left: LEFT_WALL,
                bottom: BOTTOM_WALL,
                right: RIGHT_WALL,
                thickness: WALL_THICKNESS,
            }),
            w.camera == (Camera { x: CAMERA_START_X, y: CAMERA_START_Y, zoom: ZOOM_START }),
            w.entities@.len() == 7,
            w.entities@[0] == (Entity {
                x: PLAYER_START_X,
                y: PLAYER_START_Y,
                health: Some(PLAYER_START_HEALTH),
                is_collider: true,
                kind: None,
                is_player: true,
            }),
            w.entities@[1] == (Entity {
                x: HOUSE_X,
                y: HOUSE_Y,
                health: None,
                is_collider: true,
                kind: Some(EntityKind::House),
                is_player: false,
            }),
            w.entities@[2] == (Entity {
                x: BOAR_X,
                y: BOAR_Y,
                health: Some(BOAR_HEALTH),
                is_collider: true,
                kind: Some(EntityKind::Boar),
                is_player: false,
            }),
            w.entities@[3] == wall_entity(WallLocation::Top, w.bounds),
            w.entities@[4] == wall_entity(WallLocation::Left, w.bounds),
            w.entities@[5] == wall_entity(WallLocation::Bottom, w.bounds),
            w.entities@[6] == wall_entity(WallLocation::Right, w.bounds),
    {
        let bounds = WorldBounds {
            top: TOP_WALL,
            left: LEFT_WALL,
            bottom: BOTTOM_WALL,
            right: RIGHT_WALL,
            thickness: WALL_THICKNESS,
        };
        let bound_box = bound_box_for(&bounds, PLAYER_HALF_X, PLAYER_HALF_Y).unwrap();
        let player = Entity {
            x: PLAYER_START_X,
            y: PLAYER_START_Y,
            health: Some(PLAYER_START_HEALTH),
            is_collider: true,
            kind: None,
            is_player: true,
        };
        let house = Entity {
            x: HOUSE_X,
            y: HOUSE_Y,
            health: None,
            is_collider: true,
            kind: Some(EntityKind::House),
            is_player: false,
        };
        let boar = Entity {
            x: BOAR_X,
            y: BOAR_Y,
            health: Some(BOAR_HEALTH),
            is_collider: true,
            kind: Some(EntityKind::Boar),
            is_player: false,
        };
        let wall_top = wall_collider(WallLocation::Top, &bounds);
        let wall_left = wall_collider(WallLocation::Left, &bounds);
        let wall_bottom = wall_collider(WallLocation::Bottom, &bounds);
        let wall_right = wall_collider(WallLocation::Right, &bounds);
        let mut entities: Vec<Entity> = Vec::new();
        entities.push(player);
        entities.push(house);
        entities.push(boar);
        entities.push(wall_top);
        entities.push(wall_left);
        entities.push(wall_bottom);
        entities.push(wall_right);
        proof {
            let s0 = Seq::<Entity>::empty();
            lemma_count_players_push(s0, player);
            lemma_count_players_push(s0.push(player), house);
            lemma_count_players_push(s0.push(player).push(house), boar);
            lemma_count_players_push(s0.push(player).push(house).push(boar), wall_top);
            lemma_count_players_push(s0.push(player).push(house).push(boar).push(wall_top), wall_left);
            lemma_count_players_push(
                s0.push(player).push(house).push(boar).push(wall_top).push(wall_left),
                wall_bottom,
            );
            lemma_count_players_push(
                s0.push(player).push(house).push(boar).push(wall_top).push(wall_left).push(
                    wall_bottom,
                ),
                wall_right,
            );
        }
        let camera = Camera { x: CAMERA_START_X, y: CAMERA_START_Y, zoom: ZOOM_START };
        World { bounds, bound_box, entities, camera }
    }

    /// One simulation tick: move the player, pan and zoom the camera, then
    /// run the collision and interaction pass over the post-movement
    /// positions.  Fails, touching nothing, when the entity table does not
    /// hold exactly one player row.
    pub fn tick(&mut self, input: &InputState) -> (r: Result<TickReport, ConfigError>)
        requires
            old(self).wf(),
        ensures
            final(self).wf(),
            r is Ok <==> old(self).has_single_player(),
            match r {
                Ok(report) => tick_post(*old(self), *final(self), *input, report),
                Err(e) => {
                    &&& *final(self) == *old(self)
                    &&& (e == ConfigError::NoPlayer <==> count_players(old(self).entities@) == 0)
                    &&& (e == ConfigError::MultiplePlayers <==> count_players(old(self).entities@)
                        >= 2)
                },
            },
    {
        let player_idx = match find_player(&self.entities) {
            Ok(i) => i,
            Err(e) => {
                return Err(e);
            },
        };
        proof {
            lemma_single_player_index(self.entities@);
        }
        let bb = self.bound_box;
        let e = self.entities[player_idx];
        let (nx, ny) = step_position(e.x, e.y, input, MOVE_STEP, &bb);
        let moved = Entity {
            x: nx,
            y: ny,
            health: e.health,
            is_collider: e.is_collider,
            kind: e.kind,
            is_player: e.is_player,
        };
        self.entities[player_idx] = moved;
        self.camera.tick(input, &bb);
        proof {
            assert forall|i: int|
                0 <= i < self.entities@.len() implies (#[trigger] self.entities@[i]).wf() by {
                if i != player_idx {
                    assert(self.entities@[i] == old(self).entities@[i]);
                }
            }
        }
        let report = check_for_collisions(&self.entities, player_idx, nx, ny);
        Ok(report)
    }
}

/// The collider row standing in for the wall at `location`: the wall's
/// midpoint with no health, no kind tag, and the collider flag set.
pub open spec fn wall_entity(location: WallLocation, wb: WorldBounds) -> Entity {
    Entity {
        x: location.pos_x_spec(wb) as i64,
        y: location.pos_y_spec(wb) as i64,
        health: None,
        is_collider: true,
        kind: None,
        is_player: false,
    }
}

/// Build the collider row for the wall at `location`.
pub fn wall_collider(location: WallLocation, wb: &WorldBounds) -> (r: Entity)
    requires
        wb.wf(),
    ensures
        r == wall_entity(location, *wb),
{
    let wall = Wall::new(location, wb);
    Entity {
        x: wall.center_x,
        y: wall.center_y,
        health: None,
        is_collider: true,
        kind: None,
        is_player: false,
    }
}

} // verus!
