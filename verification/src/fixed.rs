//! Fixed-point arithmetic helpers.
//!
//! All world coordinates, velocities and speeds in this crate are carried as
//! `i64` counts of milli-units: one game unit is `MILLI` (1000) of them. The
//! helpers here give the two pieces of integer arithmetic the simulation
//! needs beyond `+`, `-` and `*`: division that rounds toward zero (the way
//! machine division behaves on signed values) and the floor of a square root
//! (used to measure distances when steering).

use vstd::prelude::*;

verus! {

/// Number of fixed-point steps in one game unit.
pub const MILLI: i64 = 1000;

/// Absolute value of a mathematical integer.
pub open spec fn abs_int(a: int) -> int {
    if a >= 0 {
        a
    } else {
        -a
    }
}

/// Truncating division by a positive divisor, as executable integer
/// division performs it: the quotient is rounded toward zero.
pub open spec fn div_trunc(a: int, b: int) -> int {
    if a >= 0 {
        a / b
    } else {
        -((-a) / b)
    }
}

/// Divides `a` by the positive divisor `b`, rounding toward zero.
pub fn div_trunc_i64(a: i64, b: i64) -> (r: i64)
    requires
        b > 0,
        a > i64::MIN,
    ensures
        r == div_trunc(a as int, b as int),
{
    if a >= 0 {
        a / b
    } else {
        -((-a) / b)
    }
}

/// The magnitude of a truncated quotient never exceeds the magnitude of the
/// dividend, and dividing a bounded dividend keeps the bound.
pub proof fn lemma_div_trunc_bound(a: int, b: int)
    requires
        b > 0,
    ensures
        abs_int(div_trunc(a, b)) <= abs_int(a),
        abs_int(div_trunc(a, b)) == abs_int(a) / b,
        a >= 0 ==> 0 <= div_trunc(a, b) <= a,
        a <= 0 ==> a <= div_trunc(a, b) <= 0,
{
    if a >= 0 {
        assert(0 <= a / b <= a) by (nonlinear_arith)
            requires
                a >= 0,
                b > 0,
        ;
    } else {
        assert(0 <= (-a) / b <= -a) by (nonlinear_arith)
            requires
                -a >= 0,
                b > 0,
        ;
    }
}

/// A dividend no larger than `m * b` in magnitude yields a quotient no
/// larger than `m` in magnitude.
pub proof fn lemma_div_trunc_le(a: int, b: int, m: int)
    requires
        b > 0,
        m >= 0,
        abs_int(a) <= m * b,
    ensures
        abs_int(div_trunc(a, b)) <= m,
{
    lemma_div_trunc_bound(a, b);
    if a >= 0 {
        assert(a / b <= m) by (nonlinear_arith)
            requires
                b > 0,
                m >= 0,
                0 <= a <= m * b,
        ;
    } else {
        assert((-a) / b <= m) by (nonlinear_arith)
            requires
                b > 0,
                m >= 0,
                0 <= -a <= m * b,
        ;
    }
}

/// The floor of the square root of `n`, defined by counting up: it grows by
/// one exactly when `n` reaches the next perfect square.
pub open spec fn sqrt_floor(n: int) -> int
    decreases n,
{
    if n <= 0 {
        0
    } else {
        let r = sqrt_floor(n - 1);
        if (r + 1) * (r + 1) <= n {
            r + 1
        } else {
            r
        }
    }
}

/// `sqrt_floor(n)` is the unique `r >= 0` with `r * r <= n < (r + 1) * (r + 1)`.
pub proof fn lemma_sqrt_floor_bounds(n: int)
    requires
        n >= 0,
    ensures
        0 <= sqrt_floor(n),
        sqrt_floor(n) * sqrt_floor(n) <= n,
        n < (sqrt_floor(n) + 1) * (sqrt_floor(n) + 1),
    decreases n,
{
    if n == 0 {
    } else {
        lemma_sqrt_floor_bounds(n - 1);
        let r = sqrt_floor(n - 1);
        if (r + 1) * (r + 1) <= n {
            assert(n < (r + 2) * (r + 2)) by (nonlinear_arith)
                requires
                    r >= 0,
                    n - 1 < (r + 1) * (r + 1),
            ;
        }
    }
}

/// Any bracketing root equals `sqrt_floor`.
pub proof fn lemma_sqrt_floor_unique(n: int, r: int)
    requires
        n >= 0,
        r >= 0,
        r * r <= n,
        n < (r + 1) * (r + 1),
    ensures
        r == sqrt_floor(n),
{
    lemma_sqrt_floor_bounds(n);
    let s = sqrt_floor(n);
    assert(r == s) by (nonlinear_arith)
        requires
            r >= 0,
            s >= 0,
            r * r <= n,
            n < (r + 1) * (r + 1),
            s * s <= n,
            n < (s + 1) * (s + 1),
    ;
}

/// A square root floor is monotone in its argument from a square lower bound:
/// once `n` reaches `b * b`, the root has reached `b`.
pub proof fn lemma_sqrt_floor_at_least(n: int, b: int)
    requires
        b >= 0,
        n >= b * b,
    ensures
        sqrt_floor(n) >= b,
{
    lemma_sqrt_floor_bounds(n);
    let s = sqrt_floor(n);
    assert(s >= b) by (nonlinear_arith)
        requires
            s >= 0,
            b >= 0,
            b * b <= n,
            n < (s + 1) * (s + 1),
    ;
}

/// A component bounded by `n` in square is bounded by `sqrt_floor(n)` in
/// magnitude.
pub proof fn lemma_component_le_sqrt(d: int, n: int)
    requires
        d * d <= n,
    ensures
        abs_int(d) <= sqrt_floor(n),
{
    assert(n >= 0) by (nonlinear_arith)
        requires
            d * d <= n,
    ;
    lemma_sqrt_floor_bounds(n);
    let s = sqrt_floor(n);
    assert(abs_int(d) <= s) by (nonlinear_arith)
        requires
            s >= 0,
            d * d <= n,
            n < (s + 1) * (s + 1),
    ;
}

/// Computes `sqrt_floor(n)` by binary search over the root.
pub fn isqrt(n: i64) -> (r: i64)
    requires
        0 <= n <= 9_000_000_000_000_000_000,
    ensures
        r == sqrt_floor(n as int),
        0 <= r <= 3_000_000_000,
{
    let mut lo: i64 = 0;
    let mut hi: i64 = 3_000_000_001;
    proof {
        assert((3_000_000_001i64 as int) * (3_000_000_001i64 as int) > n) by (nonlinear_arith)
            requires
                n <= 9_000_000_000_000_000_000,
        ;
    }
    while lo + 1 < hi
        invariant
            0 <= lo < hi <= 3_000_000_001,
            lo * lo <= n,
            n < hi * hi,
        decreases hi - lo,
    {
        let mid: i64 = lo + (hi - lo) / 2;
        proof {
            assert(mid * mid <= 9_000_000_006_000_000_001) by (nonlinear_arith)
                requires
                    0 <= mid <= 3_000_000_001,
            ;
        }
        if mid * mid <= n {
            lo = mid;
        } else {
            hi = mid;
        }
    }
    proof {
        lemma_sqrt_floor_unique(n as int, lo as int);
    }
    lo
}

} // verus!
