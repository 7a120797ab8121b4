//! The pet window, the monitors and the places to stand on.

use dp_app::coreloop::kinds::Point;
use dp_app::ports::{
    apply_monitors, bounds_of, enumerate_window_bands, monitors_changed, platform_inputs,
    rect_to_band, safe_scale, to_platform_band, vd_bounds_of, vd_vertical_span, MonitorGeom,
    PetBBoxHandle, SeenWindow, WindowBand,
};
use dp_app::scalar::Scalar;
use std::sync::{Arc, Mutex};

fn s(v: f32) -> Scalar {
    Scalar { bits: v.to_bits() }
}

fn f(v: Scalar) -> f32 {
    f32::from_bits(v.bits)
}

fn p(x: f32, y: f32) -> Point {
    Point { x: s(x), y: s(y) }
}

fn monitor(
    id: u64,
    origin: (f32, f32),
    size: (f32, f32),
    work_size: (f32, f32),
    primary: bool,
) -> MonitorGeom {
    MonitorGeom {
        id,
        origin: p(origin.0, origin.1),
        size: p(size.0, size.1),
        work_origin: p(origin.0, origin.1),
        work_size: p(work_size.0, work_size.1),
        work_end: p(origin.0 + work_size.0, origin.1 + work_size.1),
        primary,
    }
}

fn mon_a() -> MonitorGeom {
    monitor(1, (0.0, 0.0), (1920.0, 1080.0), (1920.0, 1040.0), true)
}

fn mon_b() -> MonitorGeom {
    monitor(2, (-1920.0, 0.0), (1920.0, 1080.0), (1920.0, 1040.0), false)
}

fn mon_low() -> MonitorGeom {
    monitor(3, (0.0, 0.0), (1920.0, 2400.0), (1920.0, 2000.0), false)
}

/// How far the middle of each work area is from `x`.
fn away(monitors: &[MonitorGeom], x: f32) -> Vec<Scalar> {
    monitors
        .iter()
        .map(|m| s((x - (f(m.work_origin.x) + f(m.work_size.x) / 2.0)).abs()))
        .collect()
}

#[test]
fn window_band_to_platform_band_is_field_exact() {
    let band = WindowBand { left: s(400.0), top: s(300.0), right: s(1520.0) };
    let mapped = to_platform_band(band);
    assert!((f(mapped.left) - 400.0).abs() < f32::EPSILON);
    assert!((f(mapped.top) - 300.0).abs() < f32::EPSILON);
    assert!((f(mapped.right) - 1520.0).abs() < f32::EPSILON);
    let back = WindowBand { left: mapped.left, top: mapped.top, right: mapped.right };
    assert_eq!(back, band);
}

#[test]
fn platform_inputs_maps_both_lists_and_defaults_taskbars_empty() {
    let inputs = platform_inputs(
        vec![WindowBand { left: s(0.0), top: s(10.0), right: s(100.0) }],
        Vec::new(),
    );
    assert_eq!(inputs.titlebars.len(), 1);
    assert!((f(inputs.titlebars[0].top) - 10.0).abs() < f32::EPSILON);
    assert!(inputs.taskbars.is_empty());
}

#[test]
fn bounds_of_uses_monitor_of_pos() {
    let monitors = vec![mon_a(), mon_b()];
    let main = bounds_of(&monitors, s(500.0), &away(&monitors, 500.0));
    assert!((f(main.left) - 0.0).abs() < f32::EPSILON && (f(main.right) - 1920.0).abs() < f32::EPSILON);
    let left = bounds_of(&monitors, s(-500.0), &away(&monitors, -500.0));
    assert!((f(left.left) + 1920.0).abs() < f32::EPSILON && (f(left.right) - 0.0).abs() < f32::EPSILON);
}

#[test]
fn bounds_of_outside_all_screens_snaps_to_nearest_work() {
    let monitors = vec![mon_a(), mon_b()];
    let b = bounds_of(&monitors, s(5000.0), &away(&monitors, 5000.0));
    assert!((f(b.left) - 0.0).abs() < f32::EPSILON && (f(b.right) - 1920.0).abs() < f32::EPSILON);
    let b = bounds_of(&monitors, s(-5000.0), &away(&monitors, -5000.0));
    assert!((f(b.left) + 1920.0).abs() < f32::EPSILON);
}

#[test]
fn bounds_of_no_monitors_is_unbounded() {
    let b = bounds_of(&[], s(10.0), &[]);
    assert!(f(b.left) == f32::NEG_INFINITY && f(b.right) == f32::INFINITY);
}

#[test]
fn vd_bounds_union_across_monitors_and_empty_defense() {
    let b = vd_bounds_of(&[mon_a(), mon_b()]);
    assert!((f(b.left) + 1920.0).abs() < f32::EPSILON);
    assert!((f(b.right) - 1920.0).abs() < f32::EPSILON);
    let monitors = [mon_a(), mon_b()];
    let single = bounds_of(&monitors, s(-500.0), &away(&monitors, -500.0));
    assert!(f(single.right) < f(b.right));
    let empty = vd_bounds_of(&[]);
    assert!(f(empty.left) == f32::NEG_INFINITY && f(empty.right) == f32::INFINITY);
}

#[test]
fn vd_vertical_span_takes_extremes_and_empty_defense() {
    let (top, bottom) = vd_vertical_span(&[mon_a(), mon_low()]);
    assert!((f(top) - 0.0).abs() < f32::EPSILON);
    assert!((f(bottom) - 2000.0).abs() < f32::EPSILON);
    let (top, bottom) = vd_vertical_span(&[mon_a()]);
    assert!((f(top) - 0.0).abs() < f32::EPSILON && (f(bottom) - 1040.0).abs() < f32::EPSILON);
    let (top, bottom) = vd_vertical_span(&[]);
    assert!(f(top) == f32::NEG_INFINITY && f(bottom) == f32::INFINITY);
}

#[test]
fn a_bad_scale_counts_as_one() {
    assert_eq!(f(safe_scale(s(1.5))), 1.5);
    assert_eq!(f(safe_scale(s(0.0))), 1.0);
    assert_eq!(f(safe_scale(s(-2.0))), 1.0);
    assert_eq!(f(safe_scale(s(f32::NAN))), 1.0);
    assert_eq!(f(safe_scale(s(f32::INFINITY))), 1.0);
}

#[test]
fn monitors_changed_detects_add_remove_and_geometry() {
    let low_in_place = MonitorGeom { id: 1, ..mon_low() };
    assert!(!monitors_changed(&[mon_a()], &[mon_a()]));
    assert!(monitors_changed(&[mon_a()], &[]));
    assert!(monitors_changed(&[mon_a()], &[mon_a(), mon_low()]));
    assert!(monitors_changed(&[mon_a()], &[mon_low()]));
    assert!(monitors_changed(&[mon_a()], &[low_in_place]));
}

#[test]
fn monitors_in_another_order_have_not_changed() {
    assert!(!monitors_changed(&[mon_a(), mon_b(), mon_low()], &[mon_low(), mon_a(), mon_b()]));
}

#[test]
fn monitors_are_taken_over_only_where_they_changed() {
    let mut known = vec![mon_a(), mon_b()];
    assert!(!apply_monitors(&mut known, vec![mon_b(), mon_a()]));
    assert_eq!(known, vec![mon_a(), mon_b()]);
    assert!(apply_monitors(&mut known, Vec::new()));
    assert!(known.is_empty());
}

#[test]
fn the_top_of_a_window_runs_from_left_to_right() {
    let band = rect_to_band(100, 50, p(10.0, 5.0), p(110.0, 5.0)).expect("a line");
    assert_eq!((f(band.left), f(band.top), f(band.right)), (10.0, 5.0, 110.0));
    let band = rect_to_band(100, 50, p(110.0, 5.0), p(10.0, 5.0)).expect("a line");
    assert_eq!((f(band.left), f(band.right)), (10.0, 110.0));
    assert!(rect_to_band(0, 50, p(10.0, 5.0), p(110.0, 5.0)).is_none());
    assert!(rect_to_band(100, -1, p(10.0, 5.0), p(110.0, 5.0)).is_none());
    assert!(rect_to_band(100, 50, p(10.0, 5.0), p(10.0, 5.0)).is_none());
    assert!(rect_to_band(100, 50, p(f32::NAN, 5.0), p(10.0, 5.0)).is_none());
    assert!(rect_to_band(100, 50, p(10.0, f32::INFINITY), p(20.0, 5.0)).is_none());
}

#[test]
fn windows_without_a_top_are_passed_over() {
    let window = |width: i64, left: f32, right: f32| SeenWindow {
        width,
        height: 50,
        top_left: p(left, 5.0),
        top_right: p(right, 5.0),
    };
    let seen = [window(100, 10.0, 110.0), window(0, 0.0, 9.0), window(30, 400.0, 370.0)];
    let (titlebars, taskbars) = enumerate_window_bands(&seen);
    let ends: Vec<(f32, f32)> = titlebars.iter().map(|b| (f(b.left), f(b.right))).collect();
    assert_eq!(ends, vec![(10.0, 110.0), (370.0, 400.0)]);
    assert!(taskbars.is_empty());
    assert!(enumerate_window_bands(&[]).0.is_empty());
}

#[test]
fn pet_bbox_handle_read_write_and_contains() {
    let mut h = PetBBoxHandle::new();
    assert_eq!(h.load(), (0, 0, 0, 0));
    assert!(!h.contains(0, 0));
    h.store(100, 200, 356, 456);
    assert_eq!(h.load(), (100, 200, 356, 456));
    assert!(h.contains(100, 200));
    assert!(h.contains(355, 455));
    assert!(!h.contains(356, 455));
    assert!(!h.contains(355, 456));
    assert!(!h.contains(99, 200));
}

#[test]
fn pet_bbox_handle_clone_shares_slot() {
    let h = Arc::new(Mutex::new(PetBBoxHandle::new()));
    let clone = Arc::clone(&h);
    h.lock().unwrap().store(1, 2, 3, 4);
    assert_eq!(clone.lock().unwrap().load(), (1, 2, 3, 4));
}

#[test]
fn hittest_impl_four_corners_and_half_open_edges() {
    let mut h = PetBBoxHandle::new();
    h.store(10, 30, 20, 40);
    for (x, y) in [(10, 30), (19, 39), (15, 35)] {
        assert!(h.contains(x, y), "({x},{y})");
    }
    for (x, y) in [(20, 30), (10, 40), (20, 40), (9, 30), (25, 35), (10, 29), (15, 45)] {
        assert!(!h.contains(x, y), "({x},{y})");
    }
}

#[test]
fn hittest_impl_degenerate_rects_are_false_and_do_not_panic() {
    for rect in
        [(10, 30, 10, 40), (10, 30, 20, 30), (10, 40, 20, 30), (20, 30, 10, 40), (0, 0, 0, 0)]
    {
        let mut h = PetBBoxHandle::new();
        h.store(rect.0, rect.1, rect.2, rect.3);
        for (x, y) in [(10, 35), (15, 30), (15, 35), (0, 0), (-5, -5), (rect.0, rect.1)] {
            assert!(!h.contains(x, y), "{rect:?} ({x},{y})");
        }
    }
}

#[test]
fn hittest_impl_negative_coordinate_domain() {
    let mut h = PetBBoxHandle::new();
    h.store(-1920, 0, 0, 1080);
    assert!(h.contains(-1, 0));
    assert!(h.contains(-1920, 0));
    assert!(h.contains(-960, 540));
    assert!(!h.contains(0, 0));
    assert!(!h.contains(-1921, 0));
    assert!(!h.contains(-960, 1080));
}
