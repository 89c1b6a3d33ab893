//! Plane geometry for the simulation: fixed-point 2-D vectors, the centered
//! window rectangle, and the axis-aligned bounding-box overlap test that
//! drives every collision decision in the game.

use vstd::prelude::*;
use crate::fixed::abs_int;

verus! {

/// A generous bound on any coordinate or velocity component the simulation
/// handles, in milli-units. Pure vector operations ask for no more.
pub const COORD_LIMIT: i64 = 1_000_000_000_000;

/// The tighter bound on positions and goals that steering needs, so that a
/// squared distance fits in an `i64`.
pub const POS_LIMIT: i64 = 1_000_000_000;

/// Half the collision box sum: two 50-by-50 unit boxes centered at two
/// points overlap exactly when the centers are strictly closer than 50
/// units on both axes.
pub const COLLIDE_DIST: i64 = 50_000;

/// A 2-D point or velocity, each component a count of milli-units.
#[derive(Clone, Copy, PartialEq, Eq, Structural, Debug)]
pub struct Vec2I {
    pub x: i64,
    pub y: i64,
}

/// Both components of `v` lie in `[-bound, bound]`.
pub open spec fn in_range(v: Vec2I, bound: i64) -> bool {
    -bound <= v.x <= bound && -bound <= v.y <= bound
}

/// Squared distance between two points.
pub open spec fn dist_sq(a: Vec2I, b: Vec2I) -> int {
    (b.x - a.x) * (b.x - a.x) + (b.y - a.y) * (b.y - a.y)
}

/// Squared magnitude of a vector.
pub open spec fn norm_sq(v: Vec2I) -> int {
    v.x * v.x + v.y * v.y
}

/// Two 50-by-50 unit bounding boxes centered at `a` and `b` overlap.
/// Boundary contact is no overlap: the comparisons are strict.
pub open spec fn spec_collides(a: Vec2I, b: Vec2I) -> bool {
    abs_int(a.x - b.x) < COLLIDE_DIST && abs_int(a.y - b.y) < COLLIDE_DIST
}

/// Axis-aligned bounding-box overlap test for the fixed 50-by-50 boxes.
pub fn collides(a: Vec2I, b: Vec2I) -> (r: bool)
    requires
        in_range(a, COORD_LIMIT),
        in_range(b, COORD_LIMIT),
    ensures
        r == spec_collides(a, b),
{
    let dx: i64 = if a.x >= b.x {
        a.x - b.x
    } else {
        b.x - a.x
    };
    let dy: i64 = if a.y >= b.y {
        a.y - b.y
    } else {
        b.y - a.y
    };
    dx < COLLIDE_DIST && dy < COLLIDE_DIST
}

/// Bounding-box overlap is symmetric in its two boxes.
pub proof fn lemma_collides_symmetric(a: Vec2I, b: Vec2I)
    ensures
        spec_collides(a, b) == spec_collides(b, a),
{
}

/// The viewport, reported by the window each tick; width and height in
/// milli-units. The playable rectangle is centered on the origin.
#[derive(Clone, Copy, PartialEq, Eq, Structural, Debug)]
pub struct WindowSize {
    pub width: i64,
    pub height: i64,
}

/// A usable window: extents of at least one unit each way around the
/// center, small enough for spawn positions and steering goals to stay
/// within `POS_LIMIT`.
pub open spec fn window_wf(w: WindowSize) -> bool {
    2 <= w.width <= POS_LIMIT && 2 <= w.height <= POS_LIMIT
}

/// Left edge of the centered window rectangle.
pub open spec fn spec_left(w: WindowSize) -> int {
    -(w.width / 2)
}

/// Right edge of the centered window rectangle.
pub open spec fn spec_right(w: WindowSize) -> int {
    w.width / 2
}

/// Bottom edge of the centered window rectangle.
pub open spec fn spec_bottom(w: WindowSize) -> int {
    -(w.height / 2)
}

/// Top edge of the centered window rectangle.
pub open spec fn spec_top(w: WindowSize) -> int {
    w.height / 2
}

/// `p` lies inside the centered window rectangle, edges included.
pub open spec fn in_window(p: Vec2I, w: WindowSize) -> bool {
    spec_left(w) <= p.x <= spec_right(w) && spec_bottom(w) <= p.y <= spec_top(w)
}

} // verus!
