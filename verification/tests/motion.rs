use crime_download::fixed::{div_trunc_i64, isqrt};
use crime_download::geom::{collides, Vec2I, WindowSize};
use crime_download::motion::{apply_drag, integrate, pull_inside, steer};

fn win800x600() -> WindowSize {
    // 800 by 600 units, in milli-units
    WindowSize { width: 800_000, height: 600_000 }
}

#[test]
fn div_trunc_rounds_toward_zero() {
    assert_eq!(div_trunc_i64(7, 2), 3);
    assert_eq!(div_trunc_i64(-7, 2), -3);
    assert_eq!(div_trunc_i64(-1, 2), 0);
    assert_eq!(div_trunc_i64(1, 2), 0);
}

#[test]
fn isqrt_exact_values() {
    assert_eq!(isqrt(0), 0);
    assert_eq!(isqrt(1), 1);
    assert_eq!(isqrt(35), 5);
    assert_eq!(isqrt(36), 6);
    assert_eq!(isqrt(2_500_000_000), 50_000);
    assert_eq!(isqrt(2_000_000_000_000), 1_414_213);
}

#[test]
fn drag_snaps_slow_velocity_to_zero() {
    // magnitude exactly 0.1 units (100 milli-units): snapped, no creep
    let r = apply_drag(Vec2I { x: 60, y: 80 });
    assert_eq!(r, Vec2I { x: 0, y: 0 });
}

#[test]
fn drag_halves_fast_velocity() {
    let r = apply_drag(Vec2I { x: 300, y: 400 });
    assert_eq!(r, Vec2I { x: 150, y: 200 });
    let r = apply_drag(Vec2I { x: -240_000, y: 180_000 });
    assert_eq!(r, Vec2I { x: -120_000, y: 90_000 });
}

#[test]
fn drag_threshold_is_exact() {
    // just above the 0.1-unit threshold: halved, not zeroed
    let r = apply_drag(Vec2I { x: 101, y: 0 });
    assert_eq!(r, Vec2I { x: 50, y: 0 });
    // at the threshold: zeroed
    let r = apply_drag(Vec2I { x: 100, y: 0 });
    assert_eq!(r, Vec2I { x: 0, y: 0 });
}

#[test]
fn integrate_moves_along_velocity() {
    let p = integrate(Vec2I { x: 1_000, y: 2_000 }, Vec2I { x: 500, y: -500 }, 1_000);
    assert_eq!(p, Vec2I { x: 1_500, y: 1_500 });
    let p = integrate(Vec2I { x: 1_000, y: 2_000 }, Vec2I { x: 500, y: -500 }, 16);
    assert_eq!(p, Vec2I { x: 1_008, y: 1_992 });
}

#[test]
fn pull_corrects_only_violated_axes() {
    let win = win800x600();
    // inside on both axes: untouched
    let r = pull_inside(Vec2I { x: 0, y: 0 }, Vec2I { x: 7, y: -7 }, win);
    assert_eq!(r, Vec2I { x: 7, y: -7 });
    // out on the right only: x pulled left, y untouched
    let r = pull_inside(Vec2I { x: 500_000, y: 0 }, Vec2I { x: 0, y: 9 }, win);
    assert_eq!(r, Vec2I { x: -360_000, y: 9 });
    // out on the left and above: both axes corrected inward
    let r = pull_inside(Vec2I { x: -500_000, y: 400_000 }, Vec2I { x: 0, y: 0 }, win);
    assert_eq!(r, Vec2I { x: 360_000, y: -360_000 });
}

#[test]
fn pull_edge_is_inside() {
    let win = win800x600();
    // exactly on the edge counts as inside: no impulse
    let r = pull_inside(Vec2I { x: 400_000, y: -300_000 }, Vec2I { x: 3, y: 4 }, win);
    assert_eq!(r, Vec2I { x: 3, y: 4 });
}

#[test]
fn collision_is_symmetric() {
    let a = Vec2I { x: 10_000, y: 20_000 };
    let b = Vec2I { x: 45_000, y: -15_000 };
    assert_eq!(collides(a, b), collides(b, a));
    assert!(collides(a, b));
    let far = Vec2I { x: 200_000, y: 20_000 };
    assert_eq!(collides(a, far), collides(far, a));
    assert!(!collides(a, far));
}

#[test]
fn collision_boundary_touch_is_no_collision() {
    let a = Vec2I { x: 0, y: 0 };
    // centers exactly 50 units apart: boxes touch, no overlap
    assert!(!collides(a, Vec2I { x: 50_000, y: 0 }));
    assert!(collides(a, Vec2I { x: 49_999, y: 0 }));
}

#[test]
fn steer_is_zero_within_margin() {
    // 5 units from the goal: inside the 6-unit margin
    let d = steer(Vec2I { x: 0, y: 0 }, Vec2I { x: 3_000, y: 4_000 }, 60_000);
    assert_eq!(d, Vec2I { x: 0, y: 0 });
}

#[test]
fn steer_is_normalized_times_speed() {
    // 50 units away: direction (3/5, 4/5) at speed 60 units/s
    let d = steer(Vec2I { x: 0, y: 0 }, Vec2I { x: 30_000, y: 40_000 }, 60_000);
    assert_eq!(d, Vec2I { x: 36_000, y: 48_000 });
}
