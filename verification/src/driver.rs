//! The frame-counter arithmetic of the animation driver: each route's
//! master progress value is derived from a shared frame counter, staggered
//! by the route's index and wrapping every [`FRAME_PERIOD`] frames.

use vstd::prelude::*;
use vstd::arithmetic::div_mod::{
    lemma_add_mod_noop, lemma_mod_add_multiples_vanish, lemma_mod_division_less_than_divisor,
};
use crate::fixed::FRAC_ONE;

verus! {

/// Number of frames in one full loop of the animation.
pub const FRAME_PERIOD: u64 = 100;

/// Frame offset between consecutive routes, so that they animate out of
/// sync.
pub const ROUTE_STAGGER: u64 = 20;

/// Progress gained per frame, in `FRAC_ONE` fraction units.
pub const PROGRESS_STEP: i64 = 100;

/// The master progress value of a route on a frame: the staggered frame
/// counter, wrapped to one loop and scaled to a fraction of `FRAC_ONE`.
pub open spec fn spec_progress(frame: int, route: int) -> int {
    ((frame + route * ROUTE_STAGGER) % (FRAME_PERIOD as int)) * PROGRESS_STEP
}

/// The master progress value for route number `route` on frame `frame`.
pub fn progress_for(frame: u64, route: u64) -> (p: i64)
    requires
        route <= 0x0100_0000,
    ensures
        p == spec_progress(frame as int, route as int),
        0 <= p < FRAC_ONE,
{
    proof {
        lemma_add_mod_noop(frame as int, route as int * ROUTE_STAGGER, FRAME_PERIOD as int);
        lemma_mod_division_less_than_divisor(
            frame as int + route as int * ROUTE_STAGGER, FRAME_PERIOD as int,
        );
    }
    let f: u64 = frame % FRAME_PERIOD;
    let o: u64 = (route * ROUTE_STAGGER) % FRAME_PERIOD;
    let idx: u64 = (f + o) % FRAME_PERIOD;
    (idx as i64) * PROGRESS_STEP
}

/// The progress sequence repeats exactly: one route's progress on a frame
/// one whole period later is the same value, so every loop of the
/// animation replays the previous one.
pub proof fn lemma_progress_periodic(frame: int, route: int)
    ensures
        spec_progress(frame + FRAME_PERIOD, route) == spec_progress(frame, route),
{
    lemma_mod_add_multiples_vanish(frame + route * ROUTE_STAGGER, FRAME_PERIOD as int);
}

} // verus!
