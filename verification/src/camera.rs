//! The camera: a position panned exactly like the player and a zoom scale
//! driven by the two zoom keys.
//!
//! The camera pans from the same key snapshot as the player but holds its own
//! position; it is clamped into the same kind of bound box.  Each tick a held
//! zoom-out key doubles the scale and a held zoom-in key halves it (holding
//! both leaves it unchanged), and the result is clamped into
//! `[ZOOM_MIN, ZOOM_MAX]`.

use vstd::prelude::*;

use crate::bounds::BoundBox;
use crate::config::{COORD_LIMIT, MOVE_STEP, ZOOM_MAX, ZOOM_MIN};
use crate::geom::{clamp_i64, clamp_spec};
use crate::input::InputState;
use crate::movement::{step_axis, step_position};

verus! {

/// The camera's position and zoom scale; the scale is held in thousandths,
/// so 500 draws the world at half size.
#[derive(Clone, Copy, Debug, PartialEq, Eq, Structural)]
pub struct Camera {
    pub x: i64,
    pub y: i64,
    pub zoom: i64,
}

/// One tick of the zoom scale: double while zoom-out is held, halve while
/// zoom-in is held, then clamp into `[ZOOM_MIN, ZOOM_MAX]`.
pub open spec fn zoom_step(z: int, zoom_in: bool, zoom_out: bool) -> int {
    let grown = if zoom_out {
        2 * z
    } else {
        z
    };
    let shrunk = if zoom_in {
        grown / 2
    } else {
        grown
    };
    clamp_spec(shrunk, ZOOM_MIN as int, ZOOM_MAX as int)
}

/// One tick of the zoom scale, executable form of `zoom_step`.
pub fn apply_zoom(z: i64, zoom_in: bool, zoom_out: bool) -> (r: i64)
    requires
        ZOOM_MIN <= z <= ZOOM_MAX,
    ensures
        r == zoom_step(z as int, zoom_in, zoom_out),
        ZOOM_MIN <= r <= ZOOM_MAX,
{
    let grown = if zoom_out {
        2 * z
    } else {
        z
    };
    let shrunk = if zoom_in {
        grown / 2
    } else {
        grown
    };
    clamp_i64(shrunk, ZOOM_MIN, ZOOM_MAX)
}

/// Law: whatever the starting scale and held keys, one zoom tick lands in
/// `[ZOOM_MIN, ZOOM_MAX]`.
pub proof fn lemma_zoom_in_range(z: int, zoom_in: bool, zoom_out: bool)
    ensures
        ZOOM_MIN <= zoom_step(z, zoom_in, zoom_out) <= ZOOM_MAX,
{
}

/// Law: a zoom-out tick followed by a zoom-in tick restores the scale
/// exactly, provided the zoom-out did not hit the upper clamp bound.
pub proof fn lemma_zoom_round_trip(z: int)
    requires
        ZOOM_MIN <= z,
        2 * z <= ZOOM_MAX,
    ensures
        zoom_step(zoom_step(z, false, true), true, false) == z,
{
}

impl Camera {
    /// Position within `COORD_LIMIT` and zoom scale within its clamp bounds.
    pub open spec fn wf(self) -> bool {
        &&& -COORD_LIMIT <= self.x <= COORD_LIMIT
        &&& -COORD_LIMIT <= self.y <= COORD_LIMIT
        &&& ZOOM_MIN <= self.zoom <= ZOOM_MAX
    }

    /// One camera tick: pan by the movement keys, clamped into `bb`, and
    /// step the zoom scale by the zoom keys.
    pub fn tick(&mut self, input: &InputState, bb: &BoundBox)
        requires
            old(self).wf(),
            bb.wf(),
        ensures
            final(self).x == step_axis(
                old(self).x as int,
                input.left,
                input.right,
                MOVE_STEP as int,
                bb.min_x as int,
                bb.max_x as int,
            ),
            final(self).y == step_axis(
                old(self).y as int,
                input.down,
                input.up,
                MOVE_STEP as int,
                bb.min_y as int,
                bb.max_y as int,
            ),
            final(self).zoom == zoom_step(old(self).zoom as int, input.zoom_in, input.zoom_out),
            bb.contains(final(self).x as int, final(self).y as int),
            final(self).wf(),
    {
        let (nx, ny) = step_position(self.x, self.y, input, MOVE_STEP, bb);
        self.x = nx;
        self.y = ny;
        self.zoom = apply_zoom(self.zoom, input.zoom_in, input.zoom_out);
    }
}

} // verus!
