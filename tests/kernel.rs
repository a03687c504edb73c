use raytracer::path::{Evaluator, PathState, Segment};
use raytracer::ppm::{header, pixel_line, push_decimal};
use raytracer::scene::nearest_hit;
use raytracer::slab::{box_hit, BoxHit, SlabSpan};
use raytracer::sphere::sphere_root;

/// Order key of an `f64`: integers that order as the IEEE-754 total order.
fn key(t: f64) -> u64 {
    let t = if t == 0.0 { 0.0 } else { t };
    let b = t.to_bits();
    if b >> 63 == 1 {
        !b
    } else {
        b | (1u64 << 63)
    }
}

/// Slab spans of the box `[lo, hi]` for the ray `origin + t * dir`.
fn spans(lo: [f64; 3], hi: [f64; 3], origin: [f64; 3], dir: [f64; 3]) -> [SlabSpan; 3] {
    let mut s = [SlabSpan { t0: 0, t1: 0, t0_tol: 0, t1_tol: 0 }; 3];
    for a in 0..3 {
        let t0 = (lo[a] - origin[a]) / dir[a];
        let t1 = (hi[a] - origin[a]) / dir[a];
        s[a] = SlabSpan { t0: key(t0), t1: key(t1), t0_tol: key(t0 + 1e-6), t1_tol: key(t1 + 1e-6) };
    }
    s
}

fn positive(dir: [f64; 3]) -> [bool; 3] {
    [dir[0] > 0.0, dir[1] > 0.0, dir[2] > 0.0]
}

#[test]
fn order_key_orders_as_floats() {
    assert_eq!(key(-0.0), key(0.0));
    let v = [f64::NEG_INFINITY, -3.5, -1e-300, 0.0, 0.001, 1.0, 2.5, f64::INFINITY];
    for i in 1..v.len() {
        assert!(key(v[i - 1]) < key(v[i]));
    }
}

#[test]
fn nearest_hit_of_empty_scene_is_none() {
    assert_eq!(nearest_hit(&vec![]), None);
}

#[test]
fn nearest_hit_when_all_miss_is_none() {
    assert_eq!(nearest_hit(&vec![None, None, None]), None);
}

#[test]
fn nearest_hit_picks_strict_minimum() {
    assert_eq!(nearest_hit(&vec![Some(9), None, Some(4), Some(7)]), Some(2));
}

#[test]
fn nearest_hit_tie_goes_to_first() {
    assert_eq!(nearest_hit(&vec![Some(5), Some(3), None, Some(3)]), Some(1));
    assert_eq!(nearest_hit(&vec![Some(3), Some(3)]), Some(0));
}

#[test]
fn nearest_hit_on_real_distances() {
    let ts = vec![Some(key(2.25)), Some(key(0.75)), None, Some(key(0.7500001))];
    assert_eq!(nearest_hit(&ts), Some(1));
}

#[test]
fn box_hit_from_outside_reports_entry_face() {
    let lo = [-1.0, -1.0, -1.0];
    let hi = [1.0, 1.0, 1.0];
    let origin = [0.0, 0.0, -5.0];
    let dir = [0.0, 0.0, 1.0];
    let r = box_hit(spans(lo, hi, origin, dir), key(0.001), key(f64::MAX), key(0.0), positive(dir));
    assert_eq!(
        r,
        Some(BoxHit { t_axis: 2, t_plane: 0, axis: 2, plane: 0, from_inside: false, normal_positive: false })
    );
}

#[test]
fn box_hit_from_above_reports_top_face() {
    let lo = [-1.0, -1.0, -1.0];
    let hi = [1.0, 1.0, 1.0];
    let origin = [0.2, 4.0, 0.3];
    let dir = [0.0, -2.0, 0.0];
    let r = box_hit(spans(lo, hi, origin, dir), key(0.001), key(100.0), key(0.0), positive(dir));
    // t = (1 - 4) / -2 = 1.5 on the max-corner plane of y; the normal is +y.
    assert_eq!(r, Some(BoxHit { t_axis: 1, t_plane: 1, axis: 1, plane: 1, from_inside: false, normal_positive: true }));
}

#[test]
fn box_hit_from_inside_reports_exit() {
    let lo = [-1.0, -2.0, -3.0];
    let hi = [1.0, 2.0, 3.0];
    let origin = [0.0, 0.0, 0.0];
    let dir = [0.5, 0.1, 0.0];
    let r = box_hit(spans(lo, hi, origin, dir), key(0.001), key(1000.0), key(0.0), positive(dir));
    // Leaves through x = 1 at t = 2, before y = 2 at t = 20; the outward
    // normal there is +x.
    assert_eq!(r, Some(BoxHit { t_axis: 0, t_plane: 1, axis: 0, plane: 1, from_inside: true, normal_positive: true }));
}

#[test]
fn box_hit_moving_away_misses() {
    let lo = [-1.0, -1.0, -1.0];
    let hi = [1.0, 1.0, 1.0];
    let origin = [0.0, 0.0, -5.0];
    let dir = [0.1, 0.0, -1.0];
    for t_max in [1.0, 10.0, 1e9, f64::MAX] {
        assert_eq!(box_hit(spans(lo, hi, origin, dir), key(0.001), key(t_max), key(0.0), positive(dir)), None);
    }
}

#[test]
fn box_hit_parallel_outside_misses() {
    let lo = [-1.0, -1.0, -1.0];
    let hi = [1.0, 1.0, 1.0];
    let origin = [3.0, 0.0, -5.0];
    let dir = [0.0, 0.0, 1.0];
    assert_eq!(box_hit(spans(lo, hi, origin, dir), key(0.001), key(1e9), key(0.0), positive(dir)), None);
}

#[test]
fn box_hit_beyond_window_misses() {
    let lo = [-1.0, -1.0, -1.0];
    let hi = [1.0, 1.0, 1.0];
    let origin = [0.0, 0.0, -5.0];
    let dir = [0.0, 0.0, 1.0];
    // Entry at t = 4 lies past t_max = 0.1.
    assert_eq!(box_hit(spans(lo, hi, origin, dir), key(0.001), key(0.1), key(0.0), positive(dir)), None);
}

#[test]
fn sphere_root_prefers_nearer() {
    assert_eq!(sphere_root(key(1.0), key(3.0), key(0.001), key(10.0)), Some(0));
}

#[test]
fn sphere_root_falls_back_to_farther() {
    assert_eq!(sphere_root(key(-1.0), key(3.0), key(0.001), key(10.0)), Some(1));
}

#[test]
fn sphere_root_outside_window_is_none() {
    assert_eq!(sphere_root(key(-3.0), key(-1.0), key(0.001), key(10.0)), None);
    assert_eq!(sphere_root(key(11.0), key(12.0), key(0.001), key(10.0)), None);
    assert_eq!(sphere_root(key(0.001), key(10.0), key(0.001), key(10.0)), None);
}

#[test]
fn depth_zero_is_black() {
    assert_eq!(Evaluator::new(0, 100).state, PathState::Black);
    assert_eq!(Evaluator::new(-4, 0).state, PathState::Black);
    assert!(Evaluator::new(0, 100).is_done());
}

#[test]
fn empty_budget_is_sky() {
    assert_eq!(Evaluator::new(3, 0).state, PathState::Sky);
}

#[test]
fn clear_segments_exhaust_budget_into_sky() {
    let mut e = Evaluator::new(2, 3);
    assert_eq!(e.state, PathState::Marching { depth: 2, steps_left: 3 });
    e.advance(Segment::Clear);
    e.advance(Segment::Clear);
    assert_eq!(e.state, PathState::Marching { depth: 2, steps_left: 1 });
    e.advance(Segment::Clear);
    assert_eq!(e.state, PathState::Sky);
    assert!(e.is_done());
}

#[test]
fn scatter_restarts_with_one_depth_less() {
    let mut e = Evaluator::new(2, 5);
    e.advance(Segment::Clear);
    e.advance(Segment::Hit { scattered: true });
    assert_eq!(e.state, PathState::Marching { depth: 1, steps_left: 5 });
    e.advance(Segment::Hit { scattered: true });
    assert_eq!(e.state, PathState::Black);
}

#[test]
fn absorption_is_black() {
    let mut e = Evaluator::new(5, 5);
    e.advance(Segment::Hit { scattered: false });
    assert_eq!(e.state, PathState::Black);
}

#[test]
fn singularity_escapes_to_sky() {
    let mut e = Evaluator::new(5, 5);
    e.advance(Segment::Singular);
    assert_eq!(e.state, PathState::Sky);
}

#[test]
fn pixel_line_of_clamped_example() {
    assert_eq!(pixel_line(255, 0, 128), b"255 0 128\n".to_vec());
}

#[test]
fn pixel_line_of_black_and_white() {
    assert_eq!(pixel_line(0, 0, 0), b"0 0 0\n".to_vec());
    assert_eq!(pixel_line(255, 255, 255), b"255 255 255\n".to_vec());
}

#[test]
fn header_text_of_image() {
    assert_eq!(header(256, 144), b"P3\n256 144\n255\n".to_vec());
    assert_eq!(header(0, 1), b"P3\n0 1\n255\n".to_vec());
}

#[test]
fn decimal_of_extremes() {
    let mut out = b"x".to_vec();
    push_decimal(&mut out, 0);
    assert_eq!(out, b"x0".to_vec());
    let mut out = Vec::new();
    push_decimal(&mut out, u32::MAX);
    assert_eq!(out, b"4294967295".to_vec());
    let mut out = Vec::new();
    push_decimal(&mut out, 1000);
    assert_eq!(out, b"1000".to_vec());
}

#[test]
fn box_hit_entry_before_window_from_outside_misses() {
    let lo = [0.0, 0.0, 0.0];
    let hi = [1.0, 1.0, 1.0];
    let origin = [0.5, 0.5, -0.0005];
    let dir = [0.0, 0.0, 1.0];
    // Enters at t = 0.0005, at or before t_min: no hit, not a hit at the exit.
    let r = box_hit(spans(lo, hi, origin, dir), key(0.001), key(10.0), key(0.0), positive(dir));
    assert_eq!(r, None);
}

#[test]
fn box_hit_face_within_tolerance_goes_to_first_axis() {
    let lo = [0.0, 0.0, 0.0];
    let hi = [1.0, 1.0, 1.0];
    let origin = [-0.9999995, 0.5, -1.0];
    let dir = [1.0, 0.0, 1.0];
    // The x entry 0.9999995 lies within 1e-6 of the box entry 1.0 (on z).
    let r = box_hit(spans(lo, hi, origin, dir), key(0.001), key(10.0), key(0.0), positive(dir));
    assert_eq!(r, Some(BoxHit { t_axis: 2, t_plane: 0, axis: 0, plane: 0, from_inside: false, normal_positive: false }));
}

#[test]
fn box_hit_face_beyond_tolerance_is_exact_axis() {
    let lo = [0.0, 0.0, 0.0];
    let hi = [1.0, 1.0, 1.0];
    let origin = [-0.99, 0.5, -1.0];
    let dir = [1.0, 0.0, 1.0];
    let r = box_hit(spans(lo, hi, origin, dir), key(0.001), key(10.0), key(0.0), positive(dir));
    assert_eq!(r, Some(BoxHit { t_axis: 2, t_plane: 0, axis: 2, plane: 0, from_inside: false, normal_positive: false }));
}

#[test]
fn box_hit_behind_origin_with_negative_t_min_misses() {
    let lo = [-1.0, -1.0, -1.0];
    let hi = [0.0, 1.0, 1.0];
    let origin = [2.0, 0.0, 0.0];
    let dir = [1.0, 0.0, 0.0];
    // Entry at -3, exit at -2: the origin is not in the box, and the entry
    // does not lie after t_min.
    let r = box_hit(spans(lo, hi, origin, dir), key(-2.5), key(10.0), key(0.0), positive(dir));
    assert_eq!(r, None);
}

#[test]
fn box_hit_from_inside_reports_exact_exit_parameter() {
    let lo = [-1.0, -1.0, -1.0];
    let hi = [1.0, 1.0, 1.0];
    let origin = [0.0, 0.0, 0.0];
    let dir = [1.0, 1.0 / 0.9999995, 0.0];
    let s = spans(lo, hi, origin, dir);
    let r = box_hit(s, key(0.001), key(10.0), key(0.0), positive(dir));
    // The box is left through y; the x face lies within the tolerance and
    // gives the normal, but the parameter is y's exit.
    assert_eq!(
        r,
        Some(BoxHit { t_axis: 1, t_plane: 1, axis: 0, plane: 1, from_inside: true, normal_positive: true })
    );
    assert_eq!(s[1].t1, key((1.0 - 0.0) / dir[1]));
}

#[test]
fn box_hit_from_outside_reports_exact_entry_parameter() {
    let lo = [0.0, 0.0, 0.0];
    let hi = [1.0, 1.0, 1.0];
    let origin = [-0.0009995, 0.5, -0.0010003];
    let dir = [1.0, 0.0, 1.0];
    let r = box_hit(spans(lo, hi, origin, dir), key(0.001), key(10.0), key(0.0), positive(dir));
    // Entry at 0.0010003 on z, after t_min; the x face gives the normal.
    assert_eq!(
        r,
        Some(BoxHit { t_axis: 2, t_plane: 0, axis: 0, plane: 0, from_inside: false, normal_positive: false })
    );
}
