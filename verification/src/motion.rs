//! Movement of the game's entities: velocity integration, the per-frame
//! drag that settles entities to rest, the pull-back impulse that keeps
//! them inside the window, and the goal-seeking steering force of the
//! police.

use vstd::prelude::*;
use crate::fixed::{abs_int, div_trunc, div_trunc_i64, sqrt_floor, isqrt};
use crate::fixed::{lemma_component_le_sqrt, lemma_div_trunc_bound, lemma_div_trunc_le, lemma_sqrt_floor_at_least};
use crate::geom::{Vec2I, WindowSize, dist_sq, in_range, norm_sq, window_wf};
use crate::geom::{spec_left, spec_right, spec_bottom, spec_top};
use crate::geom::{COORD_LIMIT, POS_LIMIT};

verus! {

/// Velocities whose magnitude is at most 0.1 units (100 milli-units) snap
/// to zero; this is the squared threshold.
pub const MIN_VEL_SQ: i64 = 10_000;

/// Drag halves the velocity each frame.
pub const DRAG_DIV: i64 = 2;

/// Magnitude of the corrective impulse applied on each violated axis to an
/// entity outside the window, in milli-units per second.
pub const PULL_VEL: i64 = 360_000;

/// Squared distance under which an enemy is close enough to its goal to
/// stop steering (6 units).
pub const GOAL_MARGIN_SQ: i64 = 36_000_000;

/// Longest frame the simulation accepts, in milliseconds.
pub const DT_LIMIT_MS: u64 = 10_000;

/// Largest shared enemy speed the simulation accepts, in milli-units per
/// second.
pub const SPEED_LIMIT: i64 = 500_000_000;

/// Bound on the velocities a frame starts from; one frame of steering,
/// drag and pull-back lands back inside it.
pub const VEL_LIMIT: i64 = 1_600_000_000;

/// Bound on a velocity at its peak inside a frame, right after steering
/// and before drag.
pub const VEL_PEAK: i64 = 2_101_000_000;

/// The velocity after one frame of drag: halved, unless its magnitude is
/// already at or below the minimum, in which case it is zero.
pub open spec fn drag_vel(v: Vec2I) -> Vec2I {
    if norm_sq(v) <= MIN_VEL_SQ {
        Vec2I { x: 0, y: 0 }
    } else {
        Vec2I {
            x: div_trunc(v.x as int, DRAG_DIV as int) as i64,
            y: div_trunc(v.y as int, DRAG_DIV as int) as i64,
        }
    }
}

/// Squared magnitude, computed executably.
pub fn norm_sq_exec(v: Vec2I) -> (r: i64)
    requires
        in_range(v, VEL_PEAK),
    ensures
        r == norm_sq(v),
{
    proof {
        assert(0 <= v.x * v.x <= 4_415_202_100_000_000_000 && 0 <= v.y * v.y
            <= 4_415_202_100_000_000_000) by (nonlinear_arith)
            requires
                -VEL_PEAK <= v.x <= VEL_PEAK,
                -VEL_PEAK <= v.y <= VEL_PEAK,
        ;
    }
    v.x * v.x + v.y * v.y
}

/// Applies one frame of drag to a velocity. The result is the zero vector
/// exactly when the incoming magnitude was at most the minimum: a velocity
/// that survives drag is never zero, and one at or below the threshold
/// leaves no residual creep.
pub fn apply_drag(v: Vec2I) -> (r: Vec2I)
    requires
        in_range(v, VEL_PEAK),
    ensures
        r == drag_vel(v),
        (r == (Vec2I { x: 0, y: 0 })) <==> norm_sq(v) <= MIN_VEL_SQ,
        2 * abs_int(r.x as int) <= abs_int(v.x as int),
        2 * abs_int(r.y as int) <= abs_int(v.y as int),
{
    let ns: i64 = norm_sq_exec(v);
    if ns <= MIN_VEL_SQ {
        Vec2I { x: 0, y: 0 }
    } else {
        let rx: i64 = div_trunc_i64(v.x, DRAG_DIV);
        let ry: i64 = div_trunc_i64(v.y, DRAG_DIV);
        proof {
            lemma_div_trunc_bound(v.x as int, DRAG_DIV as int);
            lemma_div_trunc_bound(v.y as int, DRAG_DIV as int);
            if rx == 0 && ry == 0 {
                assert(-1 <= v.x <= 1 && -1 <= v.y <= 1);
                assert(v.x * v.x + v.y * v.y <= 2) by (nonlinear_arith)
                    requires
                        -1 <= v.x <= 1,
                        -1 <= v.y <= 1,
                ;
            }
        }
        Vec2I { x: rx, y: ry }
    }
}

/// The position reached after moving at `v` for `dt_ms` milliseconds.
pub open spec fn integrate_pos(p: Vec2I, v: Vec2I, dt_ms: u64) -> Vec2I {
    Vec2I {
        x: (p.x + div_trunc(v.x * dt_ms, 1000)) as i64,
        y: (p.y + div_trunc(v.y * dt_ms, 1000)) as i64,
    }
}

/// Moves a position along a velocity for one frame.
pub fn integrate(p: Vec2I, v: Vec2I, dt_ms: u64) -> (r: Vec2I)
    requires
        in_range(p, COORD_LIMIT),
        in_range(v, COORD_LIMIT),
        dt_ms <= DT_LIMIT_MS,
    ensures
        r == integrate_pos(p, v, dt_ms),
        abs_int(r.x as int) <= abs_int(p.x as int) + abs_int(v.x as int) * dt_ms / 1000,
        abs_int(r.y as int) <= abs_int(p.y as int) + abs_int(v.y as int) * dt_ms / 1000,
{
    proof {
        assert(abs_int(v.x * dt_ms) == abs_int(v.x as int) * dt_ms && abs_int(v.x * dt_ms)
            <= COORD_LIMIT * DT_LIMIT_MS) by (nonlinear_arith)
            requires
                -COORD_LIMIT <= v.x <= COORD_LIMIT,
                0 <= dt_ms <= DT_LIMIT_MS,
        ;
        assert(abs_int(v.y * dt_ms) == abs_int(v.y as int) * dt_ms && abs_int(v.y * dt_ms)
            <= COORD_LIMIT * DT_LIMIT_MS) by (nonlinear_arith)
            requires
                -COORD_LIMIT <= v.y <= COORD_LIMIT,
                0 <= dt_ms <= DT_LIMIT_MS,
        ;
        lemma_div_trunc_bound(v.x * dt_ms, 1000);
        lemma_div_trunc_bound(v.y * dt_ms, 1000);
    }
    let dx: i64 = div_trunc_i64(v.x * (dt_ms as i64), 1000);
    let dy: i64 = div_trunc_i64(v.y * (dt_ms as i64), 1000);
    Vec2I { x: p.x + dx, y: p.y + dy }
}

/// The velocity after boundary correction: on each axis on which the
/// position lies strictly outside the window rectangle, a constant impulse
/// toward the inside is added; a satisfied axis is untouched.
pub open spec fn pull_vel(p: Vec2I, v: Vec2I, w: WindowSize) -> Vec2I {
    Vec2I {
        x: (v.x + (if p.x < spec_left(w) {
            PULL_VEL as int
        } else {
            0
        }) - (if p.x > spec_right(w) {
            PULL_VEL as int
        } else {
            0
        })) as i64,
        y: (v.y + (if p.y < spec_bottom(w) {
            PULL_VEL as int
        } else {
            0
        }) - (if p.y > spec_top(w) {
            PULL_VEL as int
        } else {
            0
        })) as i64,
    }
}

/// Applies the boundary pull-back impulse to a velocity: exactly the
/// violated axes are corrected, and an axis already inside the rectangle
/// keeps its velocity component.
pub fn pull_inside(p: Vec2I, v: Vec2I, w: WindowSize) -> (r: Vec2I)
    requires
        in_range(p, COORD_LIMIT),
        in_range(v, COORD_LIMIT),
        window_wf(w),
    ensures
        r == pull_vel(p, v, w),
        spec_left(w) <= p.x <= spec_right(w) ==> r.x == v.x,
        spec_bottom(w) <= p.y <= spec_top(w) ==> r.y == v.y,
        p.x > spec_right(w) ==> r.x == v.x - PULL_VEL,
        p.x < spec_left(w) ==> r.x == v.x + PULL_VEL,
        p.y > spec_top(w) ==> r.y == v.y - PULL_VEL,
        p.y < spec_bottom(w) ==> r.y == v.y + PULL_VEL,
        abs_int(r.x as int) <= abs_int(v.x as int) + PULL_VEL,
        abs_int(r.y as int) <= abs_int(v.y as int) + PULL_VEL,
{
    let right: i64 = w.width / 2;
    let left: i64 = -right;
    let top: i64 = w.height / 2;
    let bottom: i64 = -top;
    let mut rx: i64 = v.x;
    let mut ry: i64 = v.y;
    if p.x > right {
        rx = rx - PULL_VEL;
    }
    if p.x < left {
        rx = rx + PULL_VEL;
    }
    if p.y > top {
        ry = ry - PULL_VEL;
    }
    if p.y < bottom {
        ry = ry + PULL_VEL;
    }
    Vec2I { x: rx, y: ry }
}

/// The steering force an enemy adds toward its goal: zero within the goal
/// margin, otherwise the direction to the goal normalized by the distance
/// floor and scaled by the shared speed.
pub open spec fn steer_delta(pos: Vec2I, goal: Vec2I, speed: i64) -> Vec2I {
    if dist_sq(pos, goal) <= GOAL_MARGIN_SQ {
        Vec2I { x: 0, y: 0 }
    } else {
        let d = sqrt_floor(dist_sq(pos, goal));
        Vec2I {
            x: div_trunc((goal.x - pos.x) * speed, d) as i64,
            y: div_trunc((goal.y - pos.y) * speed, d) as i64,
        }
    }
}

/// Computes the steering force toward a goal. Each component of the force
/// is bounded by the speed.
pub fn steer(pos: Vec2I, goal: Vec2I, speed: i64) -> (r: Vec2I)
    requires
        in_range(pos, POS_LIMIT),
        in_range(goal, POS_LIMIT),
        0 <= speed <= SPEED_LIMIT,
    ensures
        r == steer_delta(pos, goal, speed),
        abs_int(r.x as int) <= speed,
        abs_int(r.y as int) <= speed,
{
    let dx: i64 = goal.x - pos.x;
    let dy: i64 = goal.y - pos.y;
    proof {
        assert(0 <= dx * dx + dy * dy <= 8_000_000_000_000_000_000 && dx * dx <= dx * dx + dy * dy && dy * dy <= dx * dx + dy * dy) by (nonlinear_arith)
            requires
                -2_000_000_000 <= dx <= 2_000_000_000,
                -2_000_000_000 <= dy <= 2_000_000_000,
        ;
    }
    let ds: i64 = dx * dx + dy * dy;
    if ds <= GOAL_MARGIN_SQ {
        Vec2I { x: 0, y: 0 }
    } else {
        let d: i64 = isqrt(ds);
        proof {
            lemma_sqrt_floor_at_least(ds as int, 6000);
            lemma_component_le_sqrt(dx as int, ds as int);
            lemma_component_le_sqrt(dy as int, ds as int);
            assert(abs_int(dx * speed) <= speed * d && abs_int(dy * speed) <= speed * d && abs_int(dx * speed) <= 2_000_000_000_000_000_000 && abs_int(dy * speed) <= 2_000_000_000_000_000_000) by (nonlinear_arith)
                requires
                    0 <= speed <= SPEED_LIMIT,
                    abs_int(dx as int) <= d,
                    abs_int(dy as int) <= d,
                    -2_000_000_000 <= dx <= 2_000_000_000,
                    d <= 3_000_000_000,
            ;
            lemma_div_trunc_le(dx * speed, d as int, speed as int);
            lemma_div_trunc_le(dy * speed, d as int, speed as int);
        }
        Vec2I { x: div_trunc_i64(dx * speed, d), y: div_trunc_i64(dy * speed, d) }
    }
}

/// Drag leaves exactly the slow velocities at rest: the dragged velocity
/// is the zero vector if and only if the incoming magnitude was at most
/// the minimum speed — no residual creep below the threshold, and no
/// spurious stop above it.
pub proof fn lemma_drag_zero_iff(v: Vec2I)
    ensures
        (drag_vel(v) == (Vec2I { x: 0, y: 0 })) <==> norm_sq(v) <= MIN_VEL_SQ,
{
    assert(v.x * v.x >= 0 && v.y * v.y >= 0) by (nonlinear_arith);
    if norm_sq(v) > MIN_VEL_SQ {
        lemma_div_trunc_bound(v.x as int, DRAG_DIV as int);
        lemma_div_trunc_bound(v.y as int, DRAG_DIV as int);
        if div_trunc(v.x as int, DRAG_DIV as int) == 0 && div_trunc(v.y as int, DRAG_DIV as int)
            == 0 {
            assert(-1 <= v.x <= 1 && -1 <= v.y <= 1);
            assert(v.x * v.x + v.y * v.y <= 2) by (nonlinear_arith)
                requires
                    -1 <= v.x <= 1,
                    -1 <= v.y <= 1,
            ;
        }
    }
}

/// The boundary correction touches exactly the violated axes: a
/// coordinate inside the window keeps its velocity component, and one
/// strictly outside has the constant impulse added toward the inside —
/// never anything on a satisfied axis.
pub proof fn lemma_pull_exact_axes(p: Vec2I, v: Vec2I, w: WindowSize)
    requires
        in_range(v, COORD_LIMIT),
        window_wf(w),
    ensures
        spec_left(w) <= p.x <= spec_right(w) ==> pull_vel(p, v, w).x == v.x,
        spec_bottom(w) <= p.y <= spec_top(w) ==> pull_vel(p, v, w).y == v.y,
        p.x > spec_right(w) ==> pull_vel(p, v, w).x == v.x - PULL_VEL,
        p.x < spec_left(w) ==> pull_vel(p, v, w).x == v.x + PULL_VEL,
        p.y > spec_top(w) ==> pull_vel(p, v, w).y == v.y - PULL_VEL,
        p.y < spec_bottom(w) ==> pull_vel(p, v, w).y == v.y + PULL_VEL,
{
}

} // verus!
