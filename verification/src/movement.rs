//! Movement: held keys become a per-axis direction, one tick's displacement,
//! and a position clamped into the world's bound box.

use vstd::prelude::*;

use crate::bounds::BoundBox;
use crate::config::COORD_LIMIT;
use crate::geom::{clamp_i64, clamp_spec};
use crate::input::InputState;

verus! {

/// The direction a pair of opposing keys contributes on one axis: +1 for the
/// positive key, -1 for the negative one, 0 when neither or both are held.
pub open spec fn axis_direction(neg: bool, pos: bool) -> int {
    (if pos {
        1int
    } else {
        0int
    }) - (if neg {
        1int
    } else {
        0int
    })
}

/// One tick of one axis: move `step` sub-units in the keys' direction, then
/// clamp into `[lo, hi]`.
pub open spec fn step_axis(v: int, neg: bool, pos: bool, step: int, lo: int, hi: int) -> int {
    clamp_spec(v + axis_direction(neg, pos) * step, lo, hi)
}

/// The direction-times-step product written out by cases, so that callers
/// need no nonlinear reasoning of their own.
pub proof fn lemma_axis_displacement(neg: bool, pos: bool, step: int)
    ensures
        axis_direction(neg, pos) * step == (if pos {
            step
        } else {
            0int
        }) - (if neg {
            step
        } else {
            0int
        }),
{
    let d = axis_direction(neg, pos);
    if pos && !neg {
        assert(d * step == step) by (nonlinear_arith)
            requires
                d == 1,
        ;
    } else if neg && !pos {
        assert(d * step == -step) by (nonlinear_arith)
            requires
                d == -1,
        ;
    } else {
        assert(d * step == 0) by (nonlinear_arith)
            requires
                d == 0,
        ;
    }
}

/// One tick of one axis, executable form of `step_axis`.
pub fn step_axis_i64(v: i64, neg: bool, pos: bool, step: i64, lo: i64, hi: i64) -> (r: i64)
    requires
        -COORD_LIMIT <= v <= COORD_LIMIT,
        0 <= step <= COORD_LIMIT,
        lo <= hi,
    ensures
        r == step_axis(v as int, neg, pos, step as int, lo as int, hi as int),
{
    let moved = if pos && !neg {
        v + step
    } else if neg && !pos {
        v - step
    } else {
        v
    };
    proof {
        lemma_axis_displacement(neg, pos, step as int);
    }
    clamp_i64(moved, lo, hi)
}

/// One tick of both axes: `left`/`right` drive x, `down`/`up` drive y, each
/// then clamped into the bound box.
pub fn step_position(x: i64, y: i64, input: &InputState, step: i64, bb: &BoundBox) -> (r: (
    i64,
    i64,
))
    requires
        -COORD_LIMIT <= x <= COORD_LIMIT,
        -COORD_LIMIT <= y <= COORD_LIMIT,
        0 <= step <= COORD_LIMIT,
        bb.wf(),
    ensures
        r.0 == step_axis(x as int, input.left, input.right, step as int, bb.min_x as int, bb.max_x as int),
        r.1 == step_axis(y as int, input.down, input.up, step as int, bb.min_y as int, bb.max_y as int),
        bb.contains(r.0 as int, r.1 as int),
        -COORD_LIMIT <= r.0 <= COORD_LIMIT,
        -COORD_LIMIT <= r.1 <= COORD_LIMIT,
{
    let nx = step_axis_i64(x, input.left, input.right, step, bb.min_x, bb.max_x);
    let ny = step_axis_i64(y, input.down, input.up, step, bb.min_y, bb.max_y);
    (nx, ny)
}

/// The position reached from `(x, y)` after one tick per input in `inputs`,
/// in order.
pub open spec fn run_ticks(x: int, y: int, inputs: Seq<InputState>, step: int, bb: BoundBox) -> (
    int,
    int,
)
    decreases inputs.len(),
{
    if inputs.len() == 0 {
        (x, y)
    } else {
        let nx = step_axis(x, inputs[0].left, inputs[0].right, step, bb.min_x as int, bb.max_x as int);
        let ny = step_axis(y, inputs[0].down, inputs[0].up, step, bb.min_y as int, bb.max_y as int);
        run_ticks(nx, ny, inputs.subrange(1, inputs.len() as int), step, bb)
    }
}

/// Law: any run of ticks keeps a body inside the bound box — after at least
/// one tick the position lies in the box whatever the start was, and a start
/// inside the box stays inside under every input sequence.
pub proof fn lemma_bound_containment(
    x: int,
    y: int,
    inputs: Seq<InputState>,
    step: int,
    bb: BoundBox,
)
    requires
        bb.wf(),
        inputs.len() > 0 || bb.contains(x, y),
    ensures
        bb.contains(run_ticks(x, y, inputs, step, bb).0, run_ticks(x, y, inputs, step, bb).1),
    decreases inputs.len(),
{
    if inputs.len() > 0 {
        let nx = step_axis(x, inputs[0].left, inputs[0].right, step, bb.min_x as int, bb.max_x as int);
        let ny = step_axis(y, inputs[0].down, inputs[0].up, step, bb.min_y as int, bb.max_y as int);
        lemma_bound_containment(nx, ny, inputs.subrange(1, inputs.len() as int), step, bb);
    }
}

} // verus!
