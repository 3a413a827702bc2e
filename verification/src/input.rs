//! The per-tick snapshot of held keys.

use vstd::prelude::*;

verus! {

/// Which logical keys are held this tick.  The four movement keys are
/// independent booleans: opposing keys cancel, and a diagonal pair moves on
/// both axes at full per-axis speed (the diagonal is not normalized).  The
/// two zoom keys act on the camera's zoom scale only.
#[derive(Clone, Copy, Debug, PartialEq, Eq, Structural)]
pub struct InputState {
    pub up: bool,
    pub down: bool,
    pub left: bool,
    pub right: bool,
    pub zoom_in: bool,
    pub zoom_out: bool,
}

impl Default for InputState {
    /// The snapshot with no key held.
    fn default() -> (r: InputState)
        ensures
            r == (InputState {
                up: false,
                down: false,
                left: false,
                right: false,
                zoom_in: false,
                zoom_out: false,
            }),
    {
        InputState { up: false, down: false, left: false, right: false, zoom_in: false, zoom_out: false }
    }
}

} // verus!
