use air_line::color::HSL;
use air_line::driver::progress_for;
use air_line::fixed::{CURVE_MAG, FRAC_ONE, MOVE_SHARE, PIXEL};
use air_line::geometry::{control_point, curvature_sign, point_on_curve, Position};
use air_line::phase::{curve_phase, head_phase, hola_phase, normalize_process};
use air_line::render::{air_line_frame, Route};

#[test]
fn normalize_saturates_at_both_ends() {
    assert_eq!(normalize_process(0), 0);
    assert_eq!(normalize_process(-5), 0);
    assert_eq!(normalize_process(1), 1);
    assert_eq!(normalize_process(777), 777);
    assert_eq!(normalize_process(9999), 9999);
    assert_eq!(normalize_process(FRAC_ONE), FRAC_ONE);
    assert_eq!(normalize_process(12345), FRAC_ONE);
}

#[test]
fn head_phase_boundaries() {
    assert_eq!(head_phase(0), 0);
    assert_eq!(head_phase(2500), 5000);
    assert_eq!(head_phase(MOVE_SHARE), FRAC_ONE);
    assert_eq!(head_phase(7000), FRAC_ONE);
    assert_eq!(head_phase(9999), FRAC_ONE);
}

#[test]
fn curve_phase_values() {
    assert_eq!(curve_phase(0), 0);
    assert_eq!(curve_phase(2500), 0);
    assert_eq!(curve_phase(3000), 0);
    assert_eq!(curve_phase(4000), 1250);
    assert_eq!(curve_phase(9999), 8748);
}

#[test]
fn hola_phase_values() {
    assert_eq!(hola_phase(0), 0);
    assert_eq!(hola_phase(5000), 0);
    assert_eq!(hola_phase(7500), 5000);
    assert_eq!(hola_phase(9999), 9998);
}

#[test]
fn phases_stay_in_unit_range() {
    for percent in 0..FRAC_ONE {
        let h = head_phase(percent);
        let c = curve_phase(percent);
        let a = hola_phase(percent);
        assert!(0 <= h && h <= FRAC_ONE);
        assert!(0 <= c && c <= FRAC_ONE);
        assert!(0 <= a && a <= FRAC_ONE);
    }
}

#[test]
fn curvature_sign_depends_on_vertical_order() {
    let low = Position::new(0, 0);
    let high = Position::new(0, 5 * PIXEL);
    assert_eq!(curvature_sign(&low, &high), CURVE_MAG);
    assert_eq!(curvature_sign(&high, &low), -CURVE_MAG);
    let level = Position::new(7 * PIXEL, 0);
    assert_eq!(curvature_sign(&low, &level), -CURVE_MAG);
}

#[test]
fn control_point_exact_values() {
    let from = Position::new(0, 0);
    let to = Position::new(10_000_000, 4_000_000);
    let cp = control_point(&from, &to, CURVE_MAG);
    assert_eq!(cp, Position::new(6_600_000, 6_000_000));
}

#[test]
fn control_point_swap_with_negated_curveness() {
    let a = Position::new(3, 7);
    let b = Position::new(10, -5);
    assert_eq!(control_point(&a, &b, 3333), control_point(&b, &a, -3333));
    assert_eq!(control_point(&a, &b, 3333), Position::new(3, 4));
    let c = Position::new(-4_200_000, 1_000_001);
    let d = Position::new(9_999_999, -7);
    assert_eq!(control_point(&c, &d, CURVE_MAG), control_point(&d, &c, -CURVE_MAG));
    assert_eq!(control_point(&c, &d, -1234), control_point(&d, &c, 1234));
}

#[test]
fn point_on_curve_arrives_exactly() {
    let from = Position::new(0, 0);
    let to = Position::new(8_000_000, 2_000_000);
    let cp = control_point(&from, &to, CURVE_MAG);
    let (near, head) = point_on_curve(&from, &to, &cp, FRAC_ONE);
    assert_eq!(near, cp);
    assert_eq!(head, to);
}

#[test]
fn point_on_curve_starts_exactly() {
    let from = Position::new(123_456, -654_321);
    let to = Position::new(8_000_000, 2_000_000);
    let cp = control_point(&from, &to, -CURVE_MAG);
    let (near, head) = point_on_curve(&from, &to, &cp, 0);
    assert_eq!(near, from);
    assert_eq!(head, from);
}

#[test]
fn point_on_curve_midway() {
    let from = Position::new(0, 0);
    let to = Position::new(4_000_000, 8_000_000);
    let cp = control_point(&from, &to, CURVE_MAG);
    assert_eq!(cp, Position::new(5_200_000, 5_600_000));
    let (near, head) = point_on_curve(&from, &to, &cp, 5000);
    assert_eq!(near, Position::new(2_600_000, 2_800_000));
    assert_eq!(head, Position::new(3_600_000, 4_800_000));
}

#[test]
fn css_color_strings() {
    assert_eq!(HSL::new(128, 1000, 500).as_str(), "hsl(128, 100%, 50%)");
    assert_eq!(HSL::new(255, 1000, 1000).as_str(), "hsl(255, 100%, 100%)");
    assert_eq!(HSL::new(50, 255, 5).as_str(), "hsl(50, 25.5%, 0.5%)");
    assert_eq!(HSL::new(0, 0, 0).as_str(), "hsl(0, 0%, 0%)");
}

#[test]
fn progress_values_and_stagger() {
    assert_eq!(progress_for(0, 0), 0);
    assert_eq!(progress_for(1, 0), 100);
    assert_eq!(progress_for(30, 1), 5000);
    assert_eq!(progress_for(90, 1), 1000);
    assert_eq!(progress_for(99, 0), 9900);
}

#[test]
fn progress_repeats_every_period() {
    for frame in 0..300u64 {
        for route in 0..5u64 {
            assert_eq!(progress_for(frame, route), progress_for(frame + 100, route));
        }
    }
}

#[test]
fn scenario_quarter_of_the_loop() {
    // Route from one projected city to another, a quarter into the loop:
    // the head is halfway along the curve, the tail gradient stop is still
    // clamped at zero, and the afterglow has not started.
    let from = Position::new(0, 0);
    let to = Position::new(4_000_000, 8_000_000);
    let route = Route::new(from, to, HSL::new(128, 1000, 500));
    assert_eq!(route.curveness, CURVE_MAG);

    let fr = air_line_frame(&route.from, &route.to, route.curveness, 2500);
    assert!(fr.tail_visible);
    assert_eq!(fr.tail_stop, 0);
    assert_eq!(fr.halo_radius, 0);
    let cp = control_point(&from, &to, CURVE_MAG);
    let expected = point_on_curve(&from, &to, &cp, 5000);
    assert_eq!(fr.near, expected.0);
    assert_eq!(fr.head, expected.1);

    // At the very start of the loop no tail is drawn and the head sits on
    // the origin of the route.
    let start = air_line_frame(&route.from, &route.to, route.curveness, 0);
    assert!(!start.tail_visible);
    assert_eq!(start.head, from);
    assert_eq!(start.near, from);
}
