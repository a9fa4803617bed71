//! The per-frame draw plan of one arc: everything the drawing surface
//! needs to stroke the tail, fill the head disc and fill the afterglow,
//! computed from the route and the master progress value.

use vstd::prelude::*;
use crate::color::HSL;
use crate::fixed::{div_floor, CURVE_MAG, FRAC_ONE, PIXEL};
use crate::geometry::{
    control_point, curvature_sign, in_coord_range, in_derived_range, point_on_curve,
    spec_control_x, spec_control_y, spec_head, spec_near, Position,
};
use crate::phase::{
    curve_phase, head_phase, hola_phase, spec_curve_phase, spec_head_phase, spec_hola_phase,
};

verus! {

/// Radius of the afterglow at full size, in coordinate units.
pub const HALO_RADIUS: i64 = 20 * PIXEL;

/// Radius of the head disc, in coordinate units.
pub const HEAD_RADIUS: i64 = 2 * PIXEL;

/// Gradient stop (scaled by `FRAC_ONE`) at which the afterglow reaches the
/// route color before fading out again at the rim.
pub const HALO_EDGE_STOP: i64 = 9_500;

/// One route of the animation: two projected endpoints, a color, and the
/// curvature fixed from the endpoints' relative vertical order.
pub struct Route {
    pub from: Position,
    pub to: Position,
    pub color: HSL,
    pub curveness: i64,
}

impl Route {
    /// Build a route between two projected positions, fixing the
    /// curvature sign from their relative vertical order.
    pub fn new(from: Position, to: Position, color: HSL) -> (r: Route)
        ensures
            r.from == from,
            r.to == to,
            r.color == color,
            from.y < to.y ==> r.curveness == CURVE_MAG,
            from.y >= to.y ==> r.curveness == -CURVE_MAG,
            -FRAC_ONE <= r.curveness <= FRAC_ONE,
    {
        let curveness = curvature_sign(&from, &to);
        Route { from, to, color, curveness }
    }
}

/// Everything the drawing surface needs for one arc on one frame.
pub struct ArcFrame {
    /// The quadratic control point of the arc.
    pub control: Position,
    /// Through-point for stroking the tail's quadratic curve.
    pub near: Position,
    /// Current head location: center of the head disc and of the halo.
    pub head: Position,
    /// Radius of the afterglow around the head on this frame.
    pub halo_radius: i64,
    /// Whether the tail stroke is drawn at all on this frame.
    pub tail_visible: bool,
    /// Gradient offset (scaled by `FRAC_ONE`) where the tail gradient is
    /// transparent.
    pub tail_stop: i64,
}

/// Compute the draw plan of one arc for one frame.
pub fn air_line_frame(from: &Position, to: &Position, curveness: i64, percent: i64) -> (fr:
    ArcFrame)
    requires
        in_coord_range(*from),
        in_coord_range(*to),
        -FRAC_ONE <= curveness <= FRAC_ONE,
        0 <= percent < FRAC_ONE,
    ensures
        fr.control.x == spec_control_x(*from, *to, curveness as int),
        fr.control.y == spec_control_y(*from, *to, curveness as int),
        fr.near.x == spec_near(*from, fr.control, spec_head_phase(percent as int)).0,
        fr.near.y == spec_near(*from, fr.control, spec_head_phase(percent as int)).1,
        fr.head.x == spec_head(*from, *to, fr.control, spec_head_phase(percent as int)).0,
        fr.head.y == spec_head(*from, *to, fr.control, spec_head_phase(percent as int)).1,
        spec_head_phase(percent as int) == FRAC_ONE ==> fr.near == fr.control && fr.head == *to,
        spec_head_phase(percent as int) == 0 ==> fr.near == *from && fr.head == *from,
        fr.halo_radius == HALO_RADIUS * spec_hola_phase(percent as int) / (FRAC_ONE as int),
        0 <= fr.halo_radius <= HALO_RADIUS,
        fr.tail_visible == (spec_head_phase(percent as int) > 0),
        fr.tail_visible == (percent > 0),
        fr.tail_stop == spec_curve_phase(percent as int),
        0 <= fr.tail_stop <= FRAC_ONE,
        in_derived_range(fr.near),
        in_derived_range(fr.head),
{
    let control = control_point(from, to, curveness);
    let head_t = head_phase(percent);
    let (near, head) = point_on_curve(from, to, &control, head_t);
    let hola = hola_phase(percent);
    proof {
        vstd::arithmetic::div_mod::lemma_div_is_ordered(
            HALO_RADIUS as int * hola as int,
            FRAC_ONE as int * HALO_RADIUS as int,
            FRAC_ONE as int,
        );
        vstd::arithmetic::div_mod::lemma_div_multiples_vanish(
            HALO_RADIUS as int, FRAC_ONE as int,
        );
    }
    let halo_radius = div_floor(HALO_RADIUS * hola, FRAC_ONE);
    let tail_stop = curve_phase(percent);
    ArcFrame {
        control,
        near,
        head,
        halo_radius,
        tail_visible: head_t > 0,
        tail_stop,
    }
}

} // verus!
