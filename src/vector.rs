//! A two-dimensional vector of fixed-point components.
use crate::fixed::{div_round, floor_sqrt, isqrt, round_div, SCALE};
use vstd::prelude::*;

verus! {

/// The largest magnitude of a component that the norm-based operations take.
pub const COMPONENT_MAX: i64 = 0x1_0000_0000;

/// A geometric vector with a magnitude and direction, components in `1 / SCALE` steps.
#[derive(Clone, Copy, Debug, PartialEq, Eq, Structural)]
pub struct EuclidianVector {
    pub x: i64,
    pub y: i64,
}

/// Squared length of `(x, y)`, in squared steps.
pub open spec fn norm_sq(x: int, y: int) -> int {
    x * x + y * y
}

/// Divisor that turns a component into its unit-vector component: the length
/// of `(x, y)` in steps, times `SCALE`, rounded down.
pub open spec fn unit_divisor(x: int, y: int) -> int {
    floor_sqrt(norm_sq(x, y) * (SCALE * SCALE))
}

/// The unit vector of `(x, y)` in fixed point: each component is
/// `SCALE * c / |(x, y)|` rounded to the nearest step; `(0, 0)` for the zero vector.
pub open spec fn unit_of(x: int, y: int) -> (int, int) {
    if x == 0 && y == 0 {
        (0, 0)
    } else {
        (
            round_div(x * (SCALE * SCALE), unit_divisor(x, y)),
            round_div(y * (SCALE * SCALE), unit_divisor(x, y)),
        )
    }
}

/// Scalar product of two fixed-point vectors, rounded to the nearest step.
pub open spec fn dot_of(ax: int, ay: int, bx: int, by: int) -> int {
    round_div(ax * bx + ay * by, SCALE as int)
}

impl EuclidianVector {
    /// Both components lie within `COMPONENT_MAX`.
    pub open spec fn in_range(self) -> bool {
        -COMPONENT_MAX <= self.x <= COMPONENT_MAX && -COMPONENT_MAX <= self.y <= COMPONENT_MAX
    }

    pub open spec fn new_spec(x: i64, y: i64) -> EuclidianVector {
        EuclidianVector { x, y }
    }

    pub fn new(x: i64, y: i64) -> (r: EuclidianVector)
        ensures
            r.x == x,
            r.y == y,
    {
        EuclidianVector { x, y }
    }

    /// Returns the vector connecting two points, directed from the first to the second.
    pub fn from(point_a: (i64, i64), point_b: (i64, i64)) -> (r: EuclidianVector)
        requires
            i64::MIN <= point_b.0 - point_a.0 <= i64::MAX,
            i64::MIN <= point_b.1 - point_a.1 <= i64::MAX,
        ensures
            r.x == point_b.0 - point_a.0,
            r.y == point_b.1 - point_a.1,
    {
        EuclidianVector { x: point_b.0 - point_a.0, y: point_b.1 - point_a.1 }
    }

    /// Component-wise sum.
    pub fn add(self, rhs: EuclidianVector) -> (r: EuclidianVector)
        requires
            i64::MIN <= self.x + rhs.x <= i64::MAX,
            i64::MIN <= self.y + rhs.y <= i64::MAX,
        ensures
            r.x == self.x + rhs.x,
            r.y == self.y + rhs.y,
    {
        EuclidianVector { x: self.x + rhs.x, y: self.y + rhs.y }
    }

    /// Component-wise difference.
    pub fn sub(self, rhs: EuclidianVector) -> (r: EuclidianVector)
        requires
            i64::MIN <= self.x - rhs.x <= i64::MAX,
            i64::MIN <= self.y - rhs.y <= i64::MAX,
        ensures
            r.x == self.x - rhs.x,
            r.y == self.y - rhs.y,
    {
        EuclidianVector { x: self.x - rhs.x, y: self.y - rhs.y }
    }

    /// Adds `rhs` in place.
    pub fn add_assign(&mut self, rhs: EuclidianVector)
        requires
            i64::MIN <= old(self).x + rhs.x <= i64::MAX,
            i64::MIN <= old(self).y + rhs.y <= i64::MAX,
        ensures
            final(self).x == old(self).x + rhs.x,
            final(self).y == old(self).y + rhs.y,
    {
        *self = EuclidianVector { x: self.x + rhs.x, y: self.y + rhs.y };
    }

    /// Subtracts `rhs` in place.
    pub fn sub_assign(&mut self, rhs: EuclidianVector)
        requires
            i64::MIN <= old(self).x - rhs.x <= i64::MAX,
            i64::MIN <= old(self).y - rhs.y <= i64::MAX,
        ensures
            final(self).x == old(self).x - rhs.x,
            final(self).y == old(self).y - rhs.y,
    {
        *self = EuclidianVector { x: self.x - rhs.x, y: self.y - rhs.y };
    }

    /// Multiplies both components by the fixed-point scalar `k` (`SCALE` is 1),
    /// rounding to the nearest step.
    pub fn mul(self, k: i64) -> (r: EuclidianVector)
        requires
            self.in_range(),
            -COMPONENT_MAX <= k <= COMPONENT_MAX,
        ensures
            r.x == round_div(self.x * k, SCALE as int),
            r.y == round_div(self.y * k, SCALE as int),
    {
        proof {
            lemma_product_bound(self.x as int, k as int);
            lemma_product_bound(self.y as int, k as int);
        }
        let x = div_round(self.x as i128 * k as i128, SCALE as i128);
        let y = div_round(self.y as i128 * k as i128, SCALE as i128);
        proof {
            lemma_round_div_bound(self.x * k, SCALE as int, 0x100_0000_0000_0000);
            lemma_round_div_bound(self.y * k, SCALE as int, 0x100_0000_0000_0000);
        }
        EuclidianVector { x: x as i64, y: y as i64 }
    }

    /// Multiplies in place by the fixed-point scalar `k`.
    pub fn mul_assign(&mut self, k: i64)
        requires
            old(self).in_range(),
            -COMPONENT_MAX <= k <= COMPONENT_MAX,
        ensures
            final(self).x == round_div(old(self).x * k, SCALE as int),
            final(self).y == round_div(old(self).y * k, SCALE as int),
    {
        *self = self.mul(k);
    }

    /// Returns the vector's magnitude, rounded down to a step.
    pub fn magnitude(&self) -> (r: i64)
        requires
            self.in_range(),
        ensures
            r == floor_sqrt(norm_sq(self.x as int, self.y as int)),
            r >= 0,
    {
        proof {
            lemma_norm_bound(self.x as int, self.y as int);
        }
        let n: i128 = self.x as i128 * self.x as i128 + self.y as i128 * self.y as i128;
        let r = isqrt(n as u128);
        proof {
            lemma_root_bound(n as int, r as int);
        }
        r as i64
    }

    /// Returns the vector's equivalent unit vector, or the zero vector when
    /// the magnitude is zero.
    pub fn unit(&self) -> (r: EuclidianVector)
        requires
            self.in_range(),
        ensures
            (r.x as int, r.y as int) == unit_of(self.x as int, self.y as int),
            -SCALE <= r.x <= SCALE,
            -SCALE <= r.y <= SCALE,
    {
        if self.x == 0 && self.y == 0 {
            return EuclidianVector { x: 0, y: 0 };
        }
        proof {
            lemma_norm_bound(self.x as int, self.y as int);
        }
        let s: i128 = SCALE as i128;
        let n: i128 = (self.x as i128 * self.x as i128 + self.y as i128 * self.y as i128) * (s * s);
        let m = isqrt(n as u128);
        proof {
            lemma_unit_divisor(self.x as int, self.y as int, m as int);
            lemma_unit_divisor(self.y as int, self.x as int, m as int);
            assert(norm_sq(self.y as int, self.x as int) == norm_sq(self.x as int, self.y as int));
            if m >= 0x8_0000_0000_0000 {
                assert(m * m >= 0x8_0000_0000_0000u128 * 0x8_0000_0000_0000u128) by (nonlinear_arith)
                    requires
                        m >= 0x8_0000_0000_0000u128,
                ;
            }
        }
        let d = m as i128;
        let x = div_round(self.x as i128 * (s * s), d);
        let y = div_round(self.y as i128 * (s * s), d);
        proof {
            lemma_unit_component(self.x as int, d as int);
            lemma_unit_component(self.y as int, d as int);
        }
        EuclidianVector { x: x as i64, y: y as i64 }
    }

    /// Returns the scalar product of two vectors, rounded to a step.
    pub fn dot(&self, other: &EuclidianVector) -> (r: i64)
        requires
            self.in_range(),
            other.in_range(),
        ensures
            r == dot_of(self.x as int, self.y as int, other.x as int, other.y as int),
    {
        proof {
            lemma_product_bound(self.x as int, other.x as int);
            lemma_product_bound(self.y as int, other.y as int);
        }
        let p: i128 = self.x as i128 * other.x as i128 + self.y as i128 * other.y as i128;
        let r = div_round(p, SCALE as i128);
        proof {
            lemma_round_div_bound(p as int, SCALE as int, 0x100_0000_0000_0000);
        }
        r as i64
    }
}

/// A unit vector has unit length to within two steps: for any nonzero
/// in-range vector, the magnitude of its unit vector lies in
/// `[SCALE - 2, SCALE + 1]`.
pub proof fn lemma_unit_magnitude(x: int, y: int)
    requires
        !(x == 0 && y == 0),
        -COMPONENT_MAX <= x <= COMPONENT_MAX,
        -COMPONENT_MAX <= y <= COMPONENT_MAX,
    ensures
        SCALE - 2 <= floor_sqrt(norm_sq(unit_of(x, y).0, unit_of(x, y).1)) <= SCALE + 1,
        (SCALE - 2) * (SCALE - 2) <= norm_sq(unit_of(x, y).0, unit_of(x, y).1) < (SCALE + 2) * (
        SCALE + 2),
{
    let s = 1000int;
    lemma_norm_bound(x, y);
    let n = norm_sq(x, y);
    let big_n = n * (SCALE * SCALE);
    crate::fixed::lemma_floor_sqrt(big_n);
    let m = unit_divisor(x, y);
    assert(m * m <= big_n < (m + 1) * (m + 1));
    lemma_unit_divisor(x, y, m);
    let ux = unit_of(x, y).0;
    let uy = unit_of(x, y).1;
    let a = x * (SCALE * SCALE);
    let b = y * (SCALE * SCALE);
    crate::fixed::lemma_round_div_error(a, m);
    crate::fixed::lemma_round_div_error(b, m);
    let ex = 2 * m * ux - 2 * a;
    let ey = 2 * m * uy - 2 * b;
    let u = ux * ux + uy * uy;
    let ax = if x >= 0 { x } else { -x };
    let ay = if y >= 0 { y } else { -y };
    let t = s * (ax + ay);
    lemma_square_expand(m, ux, a, ex);
    lemma_square_expand(m, uy, b, ey);
    assert(4 * m * m * u == 4 * m * m * (ux * ux) + 4 * m * m * (uy * uy)) by (nonlinear_arith)
        requires
            u == ux * ux + uy * uy,
    ;
    assert(4 * m * m * u == 4 * (a * a + b * b) + 4 * (a * ex + b * ey) + ex * ex + ey * ey);
    assert(ax * ax == x * x) by (nonlinear_arith)
        requires
            ax == x || ax == -x,
    ;
    assert(ay * ay == y * y) by (nonlinear_arith)
        requires
            ay == y || ay == -y,
    ;
    assert(a * a + b * b == s * s * big_n) by (nonlinear_arith)
        requires
            a == x * 1000000,
            b == y * 1000000,
            big_n == (x * x + y * y) * 1000000,
            s == 1000,
    ;
    assert(-(s * t * m) <= a * ex + b * ey <= s * t * m) by (nonlinear_arith)
        requires
            a == x * 1000000,
            b == y * 1000000,
            t == 1000 * (ax + ay),
            ax == x || ax == -x,
            ay == y || ay == -y,
            0 <= ax,
            0 <= ay,
            -m <= ex <= m,
            -m <= ey <= m,
            s == 1000,
    ;
    assert(t * t <= 2 * big_n) by (nonlinear_arith)
        requires
            t == 1000 * (ax + ay),
            ax * ax == x * x,
            ay * ay == y * y,
            big_n == (x * x + y * y) * 1000000,
    ;
    assert(2 * t < 3 * (m + 1)) by (nonlinear_arith)
        requires
            t * t <= 2 * big_n,
            big_n < (m + 1) * (m + 1),
            0 <= t,
            0 <= m,
    ;
    assert(0 <= ex * ex + ey * ey <= 2 * m * m) by (nonlinear_arith)
        requires
            -m <= ex <= m,
            -m <= ey <= m,
    ;
    // Upper bound: the squared length stays below (SCALE + 2)^2.
    assert(4 * m * m * u < 4 * m * m * ((s + 2) * (s + 2))) by (nonlinear_arith)
        requires
            4 * m * m * u == 4 * (s * s * big_n) + 4 * (a * ex + b * ey) + ex * ex + ey * ey,
            a * ex + b * ey <= s * t * m,
            2 * t < 3 * (m + 1),
            ex * ex + ey * ey <= 2 * m * m,
            big_n < (m + 1) * (m + 1),
            m >= s,
            s == 1000,
            0 <= t,
    ;
    // Lower bound: the squared length stays at or above (SCALE - 2)^2.
    assert(4 * m * m * u >= 4 * m * m * ((s - 2) * (s - 2))) by (nonlinear_arith)
        requires
            4 * m * m * u == 4 * (s * s * big_n) + 4 * (a * ex + b * ey) + ex * ex + ey * ey,
            a * ex + b * ey >= -(s * t * m),
            2 * t < 3 * (m + 1),
            ex * ex + ey * ey >= 0,
            m * m <= big_n,
            m >= s,
            s == 1000,
            0 <= t,
    ;
    assert(u < (s + 2) * (s + 2) && u >= (s - 2) * (s - 2)) by (nonlinear_arith)
        requires
            4 * m * m * u < 4 * m * m * ((s + 2) * (s + 2)),
            4 * m * m * u >= 4 * m * m * ((s - 2) * (s - 2)),
            m >= 1,
    ;
    assert(u >= 0) by (nonlinear_arith)
        requires
            u == ux * ux + uy * uy,
    ;
    crate::fixed::lemma_floor_sqrt(u);
    let r = floor_sqrt(u);
    crate::fixed::lemma_square_lt(r, s + 2);
    crate::fixed::lemma_square_lt(s - 2, r + 1);
}

/// The unit vector of zero is zero.
pub proof fn lemma_unit_zero()
    ensures
        unit_of(0, 0) == (0int, 0int),
{
}

/// The scalar product of a unit vector with itself is its magnitude: for any
/// nonzero in-range vector both lie within a few steps of `SCALE` (the
/// product within 4, the magnitude within 2), so they differ by at most 6.
pub proof fn lemma_unit_dot(x: int, y: int)
    requires
        !(x == 0 && y == 0),
        -COMPONENT_MAX <= x <= COMPONENT_MAX,
        -COMPONENT_MAX <= y <= COMPONENT_MAX,
    ensures
        SCALE - 4 <= dot_of(unit_of(x, y).0, unit_of(x, y).1, unit_of(x, y).0, unit_of(x, y).1)
            <= SCALE + 4,
        -6 <= dot_of(unit_of(x, y).0, unit_of(x, y).1, unit_of(x, y).0, unit_of(x, y).1)
            - floor_sqrt(norm_sq(unit_of(x, y).0, unit_of(x, y).1)) <= 6,
{
    lemma_unit_magnitude(x, y);
    let u = unit_of(x, y);
    let n = u.0 * u.0 + u.1 * u.1;
    assert(n == norm_sq(u.0, u.1));
    let d = dot_of(u.0, u.1, u.0, u.1);
    assert(d == (2 * n + 1000) / 2000);
    assert(996 <= (2 * n + 1000) / 2000 <= 1004) by (nonlinear_arith)
        requires
            998 * 998 <= n < 1002 * 1002,
    ;
}

proof fn lemma_square_expand(m: int, u: int, a: int, e: int)
    requires
        e == 2 * m * u - 2 * a,
    ensures
        4 * m * m * (u * u) == 4 * (a * a) + 4 * (a * e) + e * e,
{
    assert(4 * m * m * (u * u) == (2 * m * u) * (2 * m * u)) by (nonlinear_arith);
    assert((2 * m * u) * (2 * m * u) == (2 * a + e) * (2 * a + e));
    assert((2 * a + e) * (2 * a + e) == 4 * (a * a) + 4 * (a * e) + e * e) by (nonlinear_arith);
}

proof fn lemma_product_bound(a: int, b: int)
    requires
        -COMPONENT_MAX <= a <= COMPONENT_MAX,
        -COMPONENT_MAX <= b <= COMPONENT_MAX,
    ensures
        -0x1_0000_0000_0000_0000 <= a * b <= 0x1_0000_0000_0000_0000,
{
    assert(-0x1_0000_0000_0000_0000 <= a * b <= 0x1_0000_0000_0000_0000)
        by (nonlinear_arith)
        requires
            -0x1_0000_0000 <= a <= 0x1_0000_0000,
            -0x1_0000_0000 <= b <= 0x1_0000_0000,
    ;
}

proof fn lemma_norm_bound(x: int, y: int)
    requires
        -COMPONENT_MAX <= x <= COMPONENT_MAX,
        -COMPONENT_MAX <= y <= COMPONENT_MAX,
    ensures
        0 <= x * x <= 0x1_0000_0000_0000_0000,
        0 <= y * y <= 0x1_0000_0000_0000_0000,
        0 <= norm_sq(x, y) <= 0x2_0000_0000_0000_0000,
        0 <= norm_sq(x, y) * (SCALE * SCALE) <= 0x10_0000_0000_0000_0000_0000_0000,
{
    assert(0 <= x * x <= 0x1_0000_0000_0000_0000) by (nonlinear_arith)
        requires
            -0x1_0000_0000 <= x <= 0x1_0000_0000,
    ;
    assert(0 <= y * y <= 0x1_0000_0000_0000_0000) by (nonlinear_arith)
        requires
            -0x1_0000_0000 <= y <= 0x1_0000_0000,
    ;
    let n = norm_sq(x, y);
    assert(SCALE * SCALE == 1000000);
    assert(0 <= n * 1000000 <= 0x2_0000_0000_0000_0000 * 1000000) by (nonlinear_arith)
        requires
            0 <= n <= 0x2_0000_0000_0000_0000,
    ;
}

proof fn lemma_root_bound(n: int, r: int)
    requires
        0 <= n <= 0x2_0000_0000_0000_0000,
        0 <= r,
        r * r <= n,
    ensures
        r < 0x2_0000_0000,
{
    if r >= 0x2_0000_0000 {
        assert(r * r >= 0x2_0000_0000 * 0x2_0000_0000) by (nonlinear_arith)
            requires
                r >= 0x2_0000_0000,
        ;
    }
}

/// The unit divisor of a nonzero vector is at least `SCALE` times the size of
/// each of its components.
proof fn lemma_unit_divisor(x: int, y: int, m: int)
    requires
        !(x == 0 && y == 0),
        0 <= m,
        m * m <= norm_sq(x, y) * (SCALE * SCALE) < (m + 1) * (m + 1),
    ensures
        m == unit_divisor(x, y),
        m >= SCALE,
        m >= SCALE * x,
        m >= -SCALE * x,
{
    crate::fixed::lemma_floor_sqrt_unique(norm_sq(x, y) * (SCALE * SCALE), m);
    let ax = if x >= 0 { x } else { -x };
    assert(SCALE * SCALE == 1000000);
    assert(ax * ax == x * x) by (nonlinear_arith)
        requires
            ax == x || ax == -x,
    ;
    assert(ax * ax <= norm_sq(x, y)) by (nonlinear_arith)
        requires
            ax * ax == x * x,
            norm_sq(x, y) == x * x + y * y,
    ;
    assert(norm_sq(x, y) >= 1) by (nonlinear_arith)
        requires
            !(x == 0 && y == 0),
            norm_sq(x, y) == x * x + y * y,
    ;
    let sx = SCALE * ax;
    assert(sx * sx <= norm_sq(x, y) * 1000000) by (nonlinear_arith)
        requires
            sx == 1000 * ax,
            ax * ax <= norm_sq(x, y),
    ;
    crate::fixed::lemma_square_lt(sx, m + 1);
    crate::fixed::lemma_square_lt(SCALE as int, m + 1);
}

/// A component divided by the unit divisor stays within one unit.
proof fn lemma_unit_component(c: int, d: int)
    requires
        d >= SCALE,
        d >= SCALE * c,
        d >= -SCALE * c,
    ensures
        -SCALE <= round_div(c * (SCALE * SCALE), d) <= SCALE,
{
    let n = c * (SCALE * SCALE);
    assert(n <= SCALE * d && -n <= SCALE * d) by (nonlinear_arith)
        requires
            n == c * 1000000,
            d >= 1000 * c,
            d >= -1000 * c,
    ;
    if n >= 0 {
        assert((2 * n + d) / (2 * d) <= SCALE) by (nonlinear_arith)
            requires
                0 <= n <= 1000 * d,
                d > 0,
        ;
        assert((2 * n + d) / (2 * d) >= 0) by (nonlinear_arith)
            requires
                0 <= n,
                d > 0,
        ;
    } else {
        assert((-2 * n + d) / (2 * d) <= SCALE) by (nonlinear_arith)
            requires
                0 <= -n <= 1000 * d,
                d > 0,
        ;
        assert((-2 * n + d) / (2 * d) >= 0) by (nonlinear_arith)
            requires
                0 <= -n,
                d > 0,
        ;
    }
}

/// A numerator within `b * d` rounds to a quotient within `b`.
pub proof fn lemma_round_div_bound(n: int, d: int, b: int)
    requires
        d >= 1,
        -(b * d) <= n <= b * d,
        b >= 0,
    ensures
        -b <= round_div(n, d) <= b,
{
    if n >= 0 {
        assert(0 <= (2 * n + d) / (2 * d) <= b) by (nonlinear_arith)
            requires
                0 <= n <= b * d,
                d >= 1,
        ;
    } else {
        assert(0 <= (-2 * n + d) / (2 * d) <= b) by (nonlinear_arith)
            requires
                0 <= -n <= b * d,
                d >= 1,
        ;
    }
}

} // verus!
