//! Quadratic-curve geometry: control points, curvature signs and the
//! two-stage (de Casteljau) interpolation that walks a point along the arc.

use vstd::prelude::*;
use vstd::arithmetic::div_mod::{
    lemma_div_is_ordered, lemma_div_multiples_vanish, lemma_div_of0, lemma_div_pos_is_pos,
};
use vstd::arithmetic::mul::{
    lemma_mul_inequality, lemma_mul_is_commutative, lemma_mul_nonnegative,
    lemma_mul_unary_negation,
};
use crate::fixed::{
    div_floor, lemma_abs_mul_bound, COORD_LIMIT, CURVE_MAG, DERIVED_LIMIT, FRAC_ONE,
};

verus! {

/// A planar point in fixed-point coordinates ([`crate::fixed::PIXEL`] units
/// per canvas pixel).
#[derive(Clone, Copy, PartialEq, Eq, Structural, Debug)]
pub struct Position {
    pub x: i64,
    pub y: i64,
}

impl Position {
    pub fn new(x: i64, y: i64) -> (r: Self)
        ensures
            r.x == x,
            r.y == y,
    {
        Position { x, y }
    }
}

/// Arc endpoints must lie within this window of the plane.
pub open spec fn in_coord_range(p: Position) -> bool {
    &&& -COORD_LIMIT <= p.x <= COORD_LIMIT
    &&& -COORD_LIMIT <= p.y <= COORD_LIMIT
}

/// Points derived from endpoints (control points, interpolated points) may
/// overshoot the endpoint window, but never this wider one.
pub open spec fn in_derived_range(p: Position) -> bool {
    &&& -DERIVED_LIMIT <= p.x <= DERIVED_LIMIT
    &&& -DERIVED_LIMIT <= p.y <= DERIVED_LIMIT
}

/// Linear interpolation from `a` to `b` by the fraction `t / FRAC_ONE`,
/// rounded down.
pub open spec fn spec_lerp(a: int, b: int, t: int) -> int {
    a + (b - a) * t / (FRAC_ONE as int)
}

/// The x coordinate of the quadratic control point: the chord midpoint,
/// bowed sideways by the perpendicular offset scaled by `curveness`.
pub open spec fn spec_control_x(from: Position, to: Position, curveness: int) -> int {
    (from.x + to.x) / 2 - (from.y - to.y) * curveness / (FRAC_ONE as int)
}

/// The y coordinate of the quadratic control point.
pub open spec fn spec_control_y(from: Position, to: Position, curveness: int) -> int {
    (from.y + to.y) / 2 - (from.x - to.x) * curveness / (FRAC_ONE as int)
}

/// First-stage point between `from` and the control point: the "near point"
/// through which the tail is stroked.
pub open spec fn spec_near(from: Position, control: Position, t: int) -> (int, int) {
    (spec_lerp(from.x as int, control.x as int, t), spec_lerp(from.y as int, control.y as int, t))
}

/// First-stage point between the control point and `to`.
pub open spec fn spec_far(control: Position, to: Position, t: int) -> (int, int) {
    (spec_lerp(control.x as int, to.x as int, t), spec_lerp(control.y as int, to.y as int, t))
}

/// Second-stage point: the head of the arc at fraction `t`.
pub open spec fn spec_head(from: Position, to: Position, control: Position, t: int) -> (int, int) {
    (
        spec_lerp(spec_near(from, control, t).0, spec_far(control, to, t).0, t),
        spec_lerp(spec_near(from, control, t).1, spec_far(control, to, t).1, t),
    )
}

/// Interpolating all the way (`t == FRAC_ONE`) lands exactly on `b`.
pub proof fn lemma_lerp_one(a: int, b: int)
    ensures
        spec_lerp(a, b, FRAC_ONE as int) == b,
{
    lemma_div_multiples_vanish(b - a, FRAC_ONE as int);
}

/// Interpolating not at all (`t == 0`) stays exactly on `a`.
pub proof fn lemma_lerp_zero(a: int, b: int)
    ensures
        spec_lerp(a, b, 0) == a,
{
    lemma_div_of0(FRAC_ONE as int);
}

/// Linear interpolation between two coordinates; the result never leaves
/// the closed interval between them.
fn lerp(a: i64, b: i64, t: i64) -> (r: i64)
    requires
        -DERIVED_LIMIT <= a <= DERIVED_LIMIT,
        -DERIVED_LIMIT <= b <= DERIVED_LIMIT,
        0 <= t <= FRAC_ONE,
    ensures
        r == spec_lerp(a as int, b as int, t as int),
        a <= b ==> a <= r <= b,
        b <= a ==> b <= r <= a,
{
    let d: i64 = b - a;
    proof {
        lemma_abs_mul_bound(d as int, t as int, 2 * DERIVED_LIMIT as int, FRAC_ONE as int);
    }
    let scaled: i64 = d * t;
    let delta: i64 = div_floor(scaled, FRAC_ONE);
    proof {
        if d >= 0 {
            lemma_mul_nonnegative(d as int, t as int);
            lemma_mul_inequality(t as int, FRAC_ONE as int, d as int);
            lemma_mul_is_commutative(d as int, t as int);
            lemma_div_is_ordered(
                d as int * t as int, FRAC_ONE as int * d as int, FRAC_ONE as int,
            );
            lemma_div_multiples_vanish(d as int, FRAC_ONE as int);
            lemma_div_pos_is_pos(d as int * t as int, FRAC_ONE as int);
        } else {
            let m: int = -(d as int);
            lemma_mul_inequality(t as int, FRAC_ONE as int, m);
            lemma_mul_is_commutative(m, t as int);
            lemma_mul_unary_negation(m, t as int);
            lemma_mul_nonnegative(m, t as int);
            lemma_div_is_ordered(
                FRAC_ONE as int * d as int, d as int * t as int, FRAC_ONE as int,
            );
            lemma_div_multiples_vanish(d as int, FRAC_ONE as int);
            lemma_div_is_ordered(d as int * t as int, 0, FRAC_ONE as int);
            lemma_div_of0(FRAC_ONE as int);
        }
    }
    a + delta
}

/// The quadratic Bezier control point for the arc from `from` to `to` with
/// the given signed curvature.
pub fn control_point(from: &Position, to: &Position, curveness: i64) -> (r: Position)
    requires
        in_coord_range(*from),
        in_coord_range(*to),
        -FRAC_ONE <= curveness <= FRAC_ONE,
    ensures
        r.x == spec_control_x(*from, *to, curveness as int),
        r.y == spec_control_y(*from, *to, curveness as int),
        in_derived_range(r),
{
    proof {
        lemma_abs_mul_bound(
            from.y - to.y, curveness as int, 2 * COORD_LIMIT as int, FRAC_ONE as int,
        );
        lemma_abs_mul_bound(
            from.x - to.x, curveness as int, 2 * COORD_LIMIT as int, FRAC_ONE as int,
        );
        lemma_div_is_ordered(
            (from.y - to.y) * curveness as int,
            FRAC_ONE as int * (2 * COORD_LIMIT as int),
            FRAC_ONE as int,
        );
        lemma_div_is_ordered(
            FRAC_ONE as int * (-2 * COORD_LIMIT as int),
            (from.y - to.y) * curveness as int,
            FRAC_ONE as int,
        );
        lemma_div_is_ordered(
            (from.x - to.x) * curveness as int,
            FRAC_ONE as int * (2 * COORD_LIMIT as int),
            FRAC_ONE as int,
        );
        lemma_div_is_ordered(
            FRAC_ONE as int * (-2 * COORD_LIMIT as int),
            (from.x - to.x) * curveness as int,
            FRAC_ONE as int,
        );
        lemma_div_multiples_vanish(2 * COORD_LIMIT as int, FRAC_ONE as int);
        lemma_div_multiples_vanish(-2 * COORD_LIMIT as int, FRAC_ONE as int);
    }
    let mid_x: i64 = div_floor(from.x + to.x, 2);
    let off_x: i64 = div_floor((from.y - to.y) * curveness, FRAC_ONE);
    let mid_y: i64 = div_floor(from.y + to.y, 2);
    let off_y: i64 = div_floor((from.x - to.x) * curveness, FRAC_ONE);
    Position { x: mid_x - off_x, y: mid_y - off_y }
}

/// The control point is symmetric under swapping the endpoints and negating
/// the curvature: bowing the reversed chord the other way lands on the same
/// point.
pub proof fn lemma_control_point_swap(a: Position, b: Position, c: int)
    ensures
        spec_control_x(a, b, c) == spec_control_x(b, a, -c),
        spec_control_y(a, b, c) == spec_control_y(b, a, -c),
{
    assert((b.y - a.y) * (-c) == (a.y - b.y) * c) by (nonlinear_arith);
    assert((b.x - a.x) * (-c) == (a.x - b.x) * c) by (nonlinear_arith);
}

/// The sign and magnitude of curvature for an arc: bow one way when `from`
/// lies strictly above `to` in projected coordinates, the other way
/// otherwise (ties included).
pub fn curvature_sign(from: &Position, to: &Position) -> (r: i64)
    ensures
        from.y < to.y ==> r == CURVE_MAG,
        from.y >= to.y ==> r == -CURVE_MAG,
        -FRAC_ONE <= r <= FRAC_ONE,
{
    if from.y < to.y {
        CURVE_MAG
    } else {
        -CURVE_MAG
    }
}

/// The point on the quadratic curve at fraction `t`, by two-stage linear
/// interpolation. Returns the near point (first-stage point toward the
/// control point, used to stroke the tail) and the head point. At
/// `t == FRAC_ONE` the interpolation is skipped and the pair
/// `(control, to)` is returned directly: the head lands exactly on the
/// destination.
pub fn point_on_curve(from: &Position, to: &Position, control: &Position, t: i64) -> (r: (
    Position,
    Position,
))
    requires
        in_coord_range(*from),
        in_coord_range(*to),
        in_derived_range(*control),
        0 <= t <= FRAC_ONE,
    ensures
        r.0.x == spec_near(*from, *control, t as int).0,
        r.0.y == spec_near(*from, *control, t as int).1,
        r.1.x == spec_head(*from, *to, *control, t as int).0,
        r.1.y == spec_head(*from, *to, *control, t as int).1,
        t == FRAC_ONE ==> r.0 == *control && r.1 == *to,
        t == 0 ==> r.0 == *from && r.1 == *from,
        in_derived_range(r.0),
        in_derived_range(r.1),
{
    if t >= FRAC_ONE {
        proof {
            lemma_lerp_one(from.x as int, control.x as int);
            lemma_lerp_one(from.y as int, control.y as int);
            lemma_lerp_one(control.x as int, to.x as int);
            lemma_lerp_one(control.y as int, to.y as int);
            lemma_lerp_one(spec_near(*from, *control, t as int).0, to.x as int);
            lemma_lerp_one(spec_near(*from, *control, t as int).1, to.y as int);
        }
        return (Position { x: control.x, y: control.y }, Position { x: to.x, y: to.y });
    }
    let q0 = Position { x: lerp(from.x, control.x, t), y: lerp(from.y, control.y, t) };
    let q1 = Position { x: lerp(control.x, to.x, t), y: lerp(control.y, to.y, t) };
    let head = Position { x: lerp(q0.x, q1.x, t), y: lerp(q0.y, q1.y, t) };
    proof {
        if t == 0 {
            lemma_lerp_zero(from.x as int, control.x as int);
            lemma_lerp_zero(from.y as int, control.y as int);
            lemma_lerp_zero(q0.x as int, q1.x as int);
            lemma_lerp_zero(q0.y as int, q1.y as int);
        }
    }
    (q0, head)
}

} // verus!
