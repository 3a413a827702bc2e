//! Per-frame simulation core of a top-down 2D exploration game.
//!
//! The crate advances entity positions from a snapshot of held keys, keeps
//! every moving body inside a rectangular bounded world, tracks a panning and
//! zooming camera, and reports contact between the player and every collider
//! entity so that per-kind interactions can fire.  All coordinates are held
//! in integer sub-units (two per world unit) so that one tick's displacement
//! is an exact integer; a rendering host converts to whatever scale it draws
//! at.

pub mod bounds;
pub mod camera;
pub mod collision;
pub mod config;
pub mod entity;
pub mod geom;
pub mod input;
pub mod movement;
pub mod timestep;
pub mod world;
