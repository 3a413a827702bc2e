//! The fixed configuration of the game world.
//!
//! Positions, sizes and speeds are measured in sub-units: two sub-units per
//! world unit.  The doubling makes every derived quantity an integer; in
//! particular one tick's displacement (250 units/s for 1/20 s, that is 12.5
//! units) becomes the exact integer 25.

use vstd::prelude::*;

verus! {

/// Sub-units per world unit.
pub const SUBUNITS_PER_UNIT: i64 = 2;

/// Hard limit on the magnitude of any entity or camera coordinate, in
/// sub-units.  Keeping every coordinate within this bound makes all of the
/// crate's arithmetic fit comfortably in `i64`.
pub const COORD_LIMIT: i64 = 1_000_000_000;

/// Hard limit on the magnitude of a world edge, a wall thickness or a body
/// half-extent, in sub-units.  Tighter than `COORD_LIMIT` so that clamp
/// bounds derived from them stay within `COORD_LIMIT`.
pub const WORLD_LIMIT: i64 = 100_000_000;

/// y coordinate of the top wall's center line (540 units).
pub const TOP_WALL: i64 = 1080;

/// x coordinate of the left wall's center line (-960 units).
pub const LEFT_WALL: i64 = -1920;

/// y coordinate of the bottom wall's center line (-540 units).
pub const BOTTOM_WALL: i64 = -1080;

/// x coordinate of the right wall's center line (960 units).
pub const RIGHT_WALL: i64 = 1920;

/// Thickness of each boundary wall (10 units).
pub const WALL_THICKNESS: i64 = 20;

/// Distance a held movement key carries a body in one tick (12.5 units:
/// 250 units/s at one tick per 1/20 s).
pub const MOVE_STEP: i64 = 25;

/// Milliseconds of simulated time per tick (1/20 s).
pub const TICK_MILLIS: u64 = 50;

/// Half-width of the player's sprite (16 units); an inward clamp margin.
pub const PLAYER_HALF_X: i64 = 32;

/// Half-height of the player's sprite (24 units); an inward clamp margin.
pub const PLAYER_HALF_Y: i64 = 48;

/// Half-extent of the fixed square contact footprint every entity uses for
/// overlap testing (32 units), regardless of its sprite's actual size.
pub const CONTACT_HALF: i64 = 64;

/// Smallest allowed camera zoom scale, in thousandths (0.5).
pub const ZOOM_MIN: i64 = 500;

/// Largest allowed camera zoom scale, in thousandths (2.0).
pub const ZOOM_MAX: i64 = 2000;

/// Zoom scale the camera starts at, in thousandths (0.5).
pub const ZOOM_START: i64 = 500;

/// Player spawn point (350, 350 units).
pub const PLAYER_START_X: i64 = 700;

/// Player spawn point (350, 350 units).
pub const PLAYER_START_Y: i64 = 700;

/// Hit points the player spawns with.
pub const PLAYER_START_HEALTH: u32 = 100;

/// House spawn point (350, 0 units); also where its contact label appears.
pub const HOUSE_X: i64 = 700;

/// House spawn point (350, 0 units); also where its contact label appears.
pub const HOUSE_Y: i64 = 0;

/// Boar spawn point (-254, 180 units).
pub const BOAR_X: i64 = -508;

/// Boar spawn point (-254, 180 units).
pub const BOAR_Y: i64 = 360;

/// Hit points the boar spawns with.
pub const BOAR_HEALTH: u32 = 40;

/// Camera spawn point (350, 350 units).
pub const CAMERA_START_X: i64 = 700;

/// Camera spawn point (350, 350 units).
pub const CAMERA_START_Y: i64 = 700;

} // verus!
