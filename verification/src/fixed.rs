//! Fixed-point scales and division used throughout the animation core.
//!
//! Fractions (progress values, phases, interpolation parameters, curvature
//! magnitudes) are integers scaled by [`FRAC_ONE`]; planar coordinates are
//! integers scaled by [`PIXEL`] units per canvas pixel.

use vstd::prelude::*;
use vstd::arithmetic::div_mod::{
    lemma_fundamental_div_mod, lemma_fundamental_div_mod_converse_div,
};

verus! {

/// One whole unit (1.0) in the fixed-point fraction scale.
pub const FRAC_ONE: i64 = 10_000;

/// Fraction of the loop spent moving the head along the curve (0.5).
pub const MOVE_SHARE: i64 = 5_000;

/// Fraction of the loop during which the tail is visible (0.3).
pub const TAIL_SHARE: i64 = 3_000;

/// Magnitude of the curvature applied to every arc (0.4).
pub const CURVE_MAG: i64 = 4_000;

/// Coordinate units per canvas pixel, giving sub-pixel resolution.
pub const PIXEL: i64 = 1_000_000;

/// Bound on the coordinates of arc endpoints.
pub const COORD_LIMIT: i64 = 0x100_0000_0000;

/// Bound on the coordinates of derived points (control points and
/// interpolated points), which may overshoot the endpoint bound.
pub const DERIVED_LIMIT: i64 = 0x400_0000_0000;

/// The product of two values each bounded in magnitude is bounded in
/// magnitude by the product of the bounds.
pub proof fn lemma_abs_mul_bound(a: int, b: int, abound: int, bbound: int)
    by (nonlinear_arith)
    requires
        -abound <= a <= abound,
        -bbound <= b <= bbound,
        0 <= abound,
        0 <= bbound,
    ensures
        -(abound * bbound) <= a * b <= abound * bbound,
{
}

/// Floor division by a positive divisor: the Euclidean quotient `a / d`
/// of the specification language.
pub fn div_floor(a: i64, d: i64) -> (r: i64)
    requires
        0 < d,
        -0x4000_0000_0000_0000 <= a <= 0x4000_0000_0000_0000,
    ensures
        r == a as int / d as int,
        a >= 0 ==> 0 <= r <= a,
        a < 0 ==> a <= r <= 0,
{
    if a >= 0 {
        let q: u64 = (a as u64) / (d as u64);
        proof {
            vstd::arithmetic::div_mod::lemma_div_nonincreasing(a as int, d as int);
            vstd::arithmetic::div_mod::lemma_div_pos_is_pos(a as int, d as int);
        }
        q as i64
    } else {
        let n: u64 = (-a) as u64;
        let q: u64 = n / (d as u64);
        let rem: u64 = n % (d as u64);
        proof {
            lemma_fundamental_div_mod(n as int, d as int);
        }
        if rem == 0 {
            proof {
                assert((-(q as int)) * (d as int) + 0 == -((d as int) * (q as int)))
                    by (nonlinear_arith);
                lemma_fundamental_div_mod_converse_div(
                    a as int, d as int, -(q as int), 0,
                );
                vstd::arithmetic::div_mod::lemma_div_nonincreasing(n as int, d as int);
            }
            -(q as i64)
        } else {
            proof {
                assert((-(q as int) - 1) * (d as int) + (d as int - rem as int)
                    == -((d as int) * (q as int) + rem as int)) by (nonlinear_arith);
                lemma_fundamental_div_mod_converse_div(
                    a as int, d as int, -(q as int) - 1, d as int - rem as int,
                );
                vstd::arithmetic::mul::lemma_mul_nonnegative(d as int, q as int);
                vstd::arithmetic::div_mod::lemma_div_decreases(n as int, d as int);
            }
            -(q as i64) - 1
        }
    }
}

} // verus!
