//! Decomposition of the master progress value into the three clamped
//! sub-phases that drive one frame of the animation: head position, tail
//! gradient stop, and afterglow growth.

use vstd::prelude::*;
use vstd::arithmetic::div_mod::{
    lemma_div_is_ordered, lemma_div_multiples_vanish, lemma_div_pos_is_pos,
};
use crate::fixed::{div_floor, FRAC_ONE, MOVE_SHARE, TAIL_SHARE};

verus! {

/// Saturation of a raw fraction into `[0, FRAC_ONE]`: strictly positive
/// values below one pass through, one or more becomes one, zero or less
/// becomes zero.
pub open spec fn spec_normalize(n: int) -> int {
    if 0 < n {
        if n < FRAC_ONE {
            n
        } else {
            FRAC_ONE as int
        }
    } else {
        0
    }
}

/// Head-position phase: the head covers the whole curve during the first
/// `MOVE_SHARE` of the loop, then rests at the destination.
pub open spec fn spec_head_phase(p: int) -> int {
    spec_normalize(p * FRAC_ONE / (MOVE_SHARE as int))
}

/// Tail-gradient phase: where the transparent end of the tail gradient
/// sits, so the tail shortens as the loop advances.
pub open spec fn spec_curve_phase(p: int) -> int {
    spec_normalize(p - TAIL_SHARE) * FRAC_ONE / (MOVE_SHARE + TAIL_SHARE)
}

/// Afterglow phase: the halo grows from nothing to full size during the
/// part of the loop after the head has arrived.
pub open spec fn spec_hola_phase(p: int) -> int {
    spec_normalize(p - MOVE_SHARE) * FRAC_ONE / (FRAC_ONE - MOVE_SHARE)
}

/// For every master progress value within one loop, all three sub-phases
/// are clamped fractions: the geometry and the renderer never receive an
/// out-of-range value.
pub proof fn lemma_phases_in_range(p: int)
    requires
        0 <= p < FRAC_ONE,
    ensures
        0 <= spec_head_phase(p) <= FRAC_ONE,
        0 <= spec_curve_phase(p) <= FRAC_ONE,
        0 <= spec_hola_phase(p) <= FRAC_ONE,
{
    let tail_span: int = MOVE_SHARE + TAIL_SHARE;
    let n_curve: int = spec_normalize(p - TAIL_SHARE);
    lemma_div_pos_is_pos(n_curve * FRAC_ONE, tail_span);
    lemma_div_is_ordered(n_curve * FRAC_ONE, tail_span * FRAC_ONE, tail_span);
    lemma_div_multiples_vanish(FRAC_ONE as int, tail_span);

    let glow_span: int = FRAC_ONE - MOVE_SHARE;
    let n_hola: int = spec_normalize(p - MOVE_SHARE);
    lemma_div_pos_is_pos(n_hola * FRAC_ONE, glow_span);
    lemma_div_is_ordered(n_hola * FRAC_ONE, glow_span * FRAC_ONE, glow_span);
    lemma_div_multiples_vanish(FRAC_ONE as int, glow_span);
}

/// Saturate a raw fraction into `[0, FRAC_ONE]`.
pub fn normalize_process(number: i64) -> (r: i64)
    ensures
        r == spec_normalize(number as int),
        0 <= r <= FRAC_ONE,
{
    if 0 < number {
        if number < FRAC_ONE {
            return number;
        }
        return FRAC_ONE;
    }
    0
}

/// The head-position phase for a master progress value.
pub fn head_phase(percent: i64) -> (r: i64)
    requires
        0 <= percent < FRAC_ONE,
    ensures
        r == spec_head_phase(percent as int),
        0 <= r <= FRAC_ONE,
        percent == 0 ==> r == 0,
        percent > 0 ==> r > 0,
        percent >= MOVE_SHARE ==> r == FRAC_ONE,
{
    proof {
        lemma_div_multiples_vanish(2 * percent as int, MOVE_SHARE as int);
    }
    let scaled: i64 = percent * FRAC_ONE;
    let q: i64 = div_floor(scaled, MOVE_SHARE);
    normalize_process(q)
}

/// The tail-gradient phase for a master progress value.
pub fn curve_phase(percent: i64) -> (r: i64)
    requires
        0 <= percent < FRAC_ONE,
    ensures
        r == spec_curve_phase(percent as int),
        0 <= r <= FRAC_ONE,
{
    let n: i64 = normalize_process(percent - TAIL_SHARE);
    proof {
        lemma_div_is_ordered(
            n as int * FRAC_ONE,
            (MOVE_SHARE + TAIL_SHARE) as int * FRAC_ONE,
            (MOVE_SHARE + TAIL_SHARE) as int,
        );
        lemma_div_multiples_vanish(FRAC_ONE as int, (MOVE_SHARE + TAIL_SHARE) as int);
    }
    div_floor(n * FRAC_ONE, MOVE_SHARE + TAIL_SHARE)
}

/// The afterglow phase for a master progress value.
pub fn hola_phase(percent: i64) -> (r: i64)
    requires
        0 <= percent < FRAC_ONE,
    ensures
        r == spec_hola_phase(percent as int),
        0 <= r <= FRAC_ONE,
{
    let n: i64 = normalize_process(percent - MOVE_SHARE);
    proof {
        lemma_div_multiples_vanish(2 * n as int, (FRAC_ONE - MOVE_SHARE) as int);
    }
    div_floor(n * FRAC_ONE, FRAC_ONE - MOVE_SHARE)
}

} // verus!
