use newton_raphson::curve::{curve_samples, curve_segments, Pixel, Segment};
use newton_raphson::frame::{frame_plan, marker_color, DrawCommand, Paint, MARKER_RADIUS};
use newton_raphson::polynomial::{CubicFunction, QuadraticFunction};
use newton_raphson::screen::{translate_x, translate_y, SCREEN_HEIGHT, SCREEN_WIDTH};
use newton_raphson::search::{RootSearches, START_X, START_X2};

fn newton_step(x: f32) -> f32 {
    let f = |v: f32| v * v * v + v * v;
    let df = |v: f32| 3.0 * (v * v) + 2.0 * v;
    x - f(x) / df(x)
}

fn start() -> RootSearches<f32> {
    RootSearches::new(START_X as f32, START_X2 as f32)
}

#[test]
fn configured_cubic_roots_and_critical_points() {
    let f = CubicFunction::configured();
    assert_eq!(f, CubicFunction::new(1, 1, 0, 0));
    assert_eq!(f.fx(0, 1), 0);
    assert_eq!(f.fx(-1, 1), 0);
    assert_eq!(f.fdx(0, 1), 0);
    assert_eq!(f.fdx(-2, 3), 0);
    assert_eq!(f.fx(1, 1), 2);
    assert_eq!(f.fdx(1, 1), 5);
    assert_eq!(f.fx(5, 1), 150);
    assert_eq!(f.fdx(5, 1), 85);
}

#[test]
fn cubic_at_rational_points() {
    let f = CubicFunction::new(2, -1, 3, -4);
    // 8 * f(1/2) = 8 * (-2.5)
    assert_eq!(f.fx(1, 2), -20);
    // 4 * f'(1/2) = 4 * 3.5
    assert_eq!(f.fdx(1, 2), 14);
    assert_eq!(f.fx(-3, 1), -54 - 9 - 9 - 4);
}

#[test]
fn cubic_at_extreme_inputs() {
    let m = i32::MAX;
    let f = CubicFunction::new(m, m, m, m);
    let p = i32::MIN as i128;
    let q = i32::MIN as i128;
    let m = m as i128;
    assert_eq!(f.fx(i32::MIN, i32::MIN), m * p * p * p + m * p * p * q + m * p * q * q + m * q * q * q);
    assert_eq!(f.fdx(i32::MIN, i32::MIN), 3 * (m * p * p) + 2 * (m * p * q) + m * q * q);
}

#[test]
fn quadratic_roots_and_vertex() {
    let f = QuadraticFunction::new(1, -3, 2);
    assert_eq!(f.fx(1, 1), 0);
    assert_eq!(f.fx(2, 1), 0);
    // 4 * f(3/2) = 4 * (-0.25)
    assert_eq!(f.fx(3, 2), -1);
    assert_eq!(f.fdx(3, 2), 0);
    assert_eq!(f.fdx(0, 1), -3);
}

#[test]
fn world_origin_maps_to_screen_centre() {
    assert_eq!(translate_x(0, 1), 640);
    assert_eq!(translate_y(0, 1), 480);
    assert_eq!(translate_x(0, 1), SCREEN_WIDTH / 2);
    assert_eq!(translate_y(0, 1), SCREEN_HEIGHT / 2);
}

#[test]
fn mapping_scales_and_inverts() {
    assert_eq!(translate_x(1, 1), 660);
    assert_eq!(translate_x(-100, 1), -1360);
    assert_eq!(translate_x(-1, 10), 638);
    assert_eq!(translate_y(1, 1), 475);
    assert_eq!(translate_y(-2, 1), 490);
    assert_eq!(translate_y(100, 1), -20);
}

#[test]
fn mapping_truncates_toward_zero() {
    // 633.33 -> 633
    assert_eq!(translate_x(-1, 3), 633);
    // -6.67 -> -6, not -7
    assert_eq!(translate_x(-97, 3), -6);
    // 479.945 -> 479
    assert_eq!(translate_y(11, 1000), 479);
}

#[test]
fn mapping_saturates() {
    assert_eq!(translate_x(i64::MAX, 1), i32::MAX);
    assert_eq!(translate_x(i64::MIN, 1), i32::MIN);
    assert_eq!(translate_y(i64::MAX, 1), i32::MIN);
    assert_eq!(translate_y(i64::MIN, 1), i32::MAX);
}

#[test]
fn curve_has_201_samples() {
    let s = curve_samples();
    assert_eq!(s.len(), 201);
    assert_eq!(s[0], -100);
    assert_eq!(s[100], 0);
    assert_eq!(s[200], 100);
}

#[test]
fn curve_segments_follow_the_cubic() {
    let segs = curve_segments(&CubicFunction::configured());
    assert_eq!(segs.len(), 200);
    assert_eq!(
        segs[0],
        Segment { from: Pixel { x: 440, y: 4980 }, to: Pixel { x: 442, y: 4841 } }
    );
    assert_eq!(
        segs[100],
        Segment { from: Pixel { x: 640, y: 480 }, to: Pixel { x: 642, y: 479 } }
    );
    assert_eq!(
        segs[199],
        Segment { from: Pixel { x: 838, y: -4861 }, to: Pixel { x: 840, y: -5020 } }
    );
    for i in 1..segs.len() {
        assert_eq!(segs[i].from, segs[i - 1].to);
    }
}

#[test]
fn marker_colour_needs_both_exact_zeros() {
    assert_eq!(marker_color(true, true), Paint::Green);
    assert_eq!(marker_color(true, false), Paint::Red);
    assert_eq!(marker_color(false, true), Paint::Red);
    assert_eq!(marker_color(false, false), Paint::Red);
    let tiny: f32 = 1e-7;
    assert_eq!(marker_color(tiny == 0.0, 0.0f32 == 0.0), Paint::Red);
    assert_eq!(marker_color(0.0f32 == 0.0, -tiny == 0.0), Paint::Red);
}

#[test]
fn frame_is_drawn_in_order() {
    let curve = curve_segments(&CubicFunction::configured());
    let m1 = Pixel { x: 740, y: -270 };
    let m2 = Pixel { x: 540, y: 980 };
    let plan = frame_plan(&curve, "x: 5 y: 150".to_string(), "x: -5 y: -100".to_string(), m1, m2, false, true);
    assert_eq!(plan.len(), 208);
    for i in 0..200 {
        assert!(matches!(plan[i], DrawCommand::Line { seg, paint: Paint::Purple } if seg == curve[i]));
    }
    assert!(matches!(plan[200], DrawCommand::Clear { paint: Paint::Black }));
    match &plan[201] {
        DrawCommand::Text { text, x, y, size, paint } => {
            assert_eq!((text.as_str(), *x, *y, *size, *paint), ("Newton Raphson", 12, 12, 24, Paint::White));
        }
        other => panic!("expected the title, got {:?}", other),
    }
    match &plan[202] {
        DrawCommand::Text { text, x, y, .. } => assert_eq!((text.as_str(), *x, *y), ("x: 5 y: 150", 12, 36)),
        other => panic!("expected a status line, got {:?}", other),
    }
    match &plan[203] {
        DrawCommand::Text { text, x, y, .. } => assert_eq!((text.as_str(), *x, *y), ("x: -5 y: -100", 12, 60)),
        other => panic!("expected a status line, got {:?}", other),
    }
    let vertical = Segment { from: Pixel { x: 640, y: 0 }, to: Pixel { x: 640, y: 960 } };
    let horizontal = Segment { from: Pixel { x: 0, y: 480 }, to: Pixel { x: 1280, y: 480 } };
    assert!(matches!(plan[204], DrawCommand::Line { seg, paint: Paint::Yellow } if seg == vertical));
    assert!(matches!(plan[205], DrawCommand::Line { seg, paint: Paint::Yellow } if seg == horizontal));
    assert!(matches!(plan[206], DrawCommand::Ellipse { center, radius: MARKER_RADIUS, paint: Paint::Red } if center == m1));
    assert!(matches!(plan[207], DrawCommand::Ellipse { center, radius: 5, paint: Paint::Red } if center == m2));
}

#[test]
fn converged_frame_uses_green_markers() {
    let plan = frame_plan(&Vec::new(), String::new(), String::new(), Pixel { x: 640, y: 480 }, Pixel { x: 620, y: 480 }, true, true);
    assert_eq!(plan.len(), 8);
    assert!(matches!(plan[6], DrawCommand::Ellipse { paint: Paint::Green, .. }));
    assert!(matches!(plan[7], DrawCommand::Ellipse { paint: Paint::Green, .. }));
}

#[test]
fn search_from_five_converges_to_zero() {
    let mut s = start();
    for _ in 0..10 {
        s.step_both(&newton_step);
    }
    let y = s.x * s.x * s.x + s.x * s.x;
    assert!(y.abs() < 1e-3, "f(x) = {}", y);
    assert!(s.x.abs() < 0.05, "x = {}", s.x);
}

#[test]
fn search_from_minus_five_converges_to_minus_one() {
    let mut s = start();
    for _ in 0..10 {
        s.step_both(&newton_step);
    }
    assert!((s.x2 + 1.0).abs() < 1e-4, "x2 = {}", s.x2);
}

#[test]
fn reset_restores_start_after_any_steps() {
    let mut s = start();
    for _ in 0..7 {
        s.on_frame(true, false, start(), &newton_step);
    }
    assert!(s.x != 5.0);
    s.on_frame(false, true, start(), &newton_step);
    assert_eq!((s.x, s.x2), (5.0, -5.0));
    s.reset(start());
    assert_eq!((s.x, s.x2), (5.0, -5.0));
}

#[test]
fn reset_wins_over_step_in_the_same_frame() {
    let mut s = start();
    s.on_frame(true, false, start(), &newton_step);
    s.on_frame(true, true, start(), &newton_step);
    assert_eq!((s.x, s.x2), (5.0, -5.0));
}

#[test]
fn idle_frame_keeps_estimates() {
    let mut s = start();
    s.on_frame(true, false, start(), &newton_step);
    let before = (s.x, s.x2);
    s.on_frame(false, false, start(), &newton_step);
    assert_eq!((s.x, s.x2), before);
}

#[test]
fn one_step_applies_newton_update() {
    let mut s = start();
    s.on_frame(true, false, start(), &newton_step);
    assert!((s.x - 55.0 / 17.0).abs() < 1e-5);
    assert!((s.x2 - 45.0 / 13.0 * -1.0).abs() < 1e-5);
}

#[test]
fn exact_step_from_five() {
    let f = CubicFunction::configured();
    // x' = (p·D − F) / (q·D) at p / q = 5 / 1
    let big_f = f.fx(5, 1);
    let d = f.fdx(5, 1);
    let (p1, q1) = (5 * d - big_f, d);
    assert_eq!((p1, q1), (275, 85));
    // 275 / 85 = 55 / 17, below two thirds of 5 and above half of it
    assert!(3 * p1 < 2 * 5 * q1);
    assert!(2 * p1 > 5 * q1);
}

#[test]
fn exact_step_from_minus_five() {
    let f = CubicFunction::configured();
    let big_f = f.fx(-5, 1);
    let d = f.fdx(-5, 1);
    let (p1, q1) = (-5 * d - big_f, d);
    // -45 / 13: above −5 and below −1
    assert_eq!((p1, q1), (-225, 65));
    assert!(p1 > -5 * q1 && p1 < -q1);
}

#[test]
fn steps_after_reset_ignore_earlier_steps() {
    let mut fresh = start();
    let mut used = start();
    for _ in 0..4 {
        used.on_frame(true, false, start(), &newton_step);
    }
    used.on_frame(true, true, start(), &newton_step);
    for _ in 0..6 {
        fresh.on_frame(true, false, start(), &newton_step);
        used.on_frame(true, false, start(), &newton_step);
        assert_eq!(fresh.x.to_bits(), used.x.to_bits());
        assert_eq!(fresh.x2.to_bits(), used.x2.to_bits());
    }
}
