//! The fixed-timestep schedule: how many whole ticks a stretch of real time
//! is worth, and what remainder carries into the next frame.
//!
//! The simulation advances in fixed ticks however irregularly the host
//! renders frames: each frame the host adds its elapsed milliseconds to the
//! carried remainder, runs the whole ticks this function counts out, and
//! keeps the new remainder.

use vstd::prelude::*;

verus! {

/// Split the carried remainder plus newly elapsed time into whole ticks of
/// `tick_len` milliseconds and the remainder to carry, conserving every
/// millisecond.
pub fn ticks_to_run(carried: u64, elapsed: u64, tick_len: u64) -> (r: (u64, u64))
    requires
        tick_len > 0,
        carried < tick_len,
        carried + elapsed <= u64::MAX,
    ensures
        r.0 == (carried + elapsed) as u64 / tick_len,
        r.1 == (carried + elapsed) as u64 % tick_len,
        r.1 < tick_len,
        r.0 * tick_len + r.1 == carried + elapsed,
{
    let total = carried + elapsed;
    let ticks = total / tick_len;
    let rest = total % tick_len;
    proof {
        assert(ticks * tick_len + rest == total) by (nonlinear_arith)
            requires
                tick_len > 0,
                ticks == total / tick_len,
                rest == total % tick_len,
        ;
    }
    (ticks, rest)
}

} // verus!
