//! Fixed-point arithmetic shared by the physics modules.
//!
//! Every length, velocity, acceleration, force and mass is held as an `i64`
//! count of `1 / SCALE` units. Time advances in ticks of `1 / TICKS_PER_SEC`
//! seconds.
use vstd::prelude::*;

verus! {

/// Number of fixed-point steps in one unit.
pub const SCALE: i64 = 1000;

/// Number of simulation ticks in one second (the time step is 0.01 s).
pub const TICKS_PER_SEC: i64 = 100;

/// Quotient of `n / d` rounded to the nearest integer, halves away from zero.
pub open spec fn round_div(n: int, d: int) -> int
    recommends
        d > 0,
{
    if n >= 0 {
        (2 * n + d) / (2 * d)
    } else {
        -((-2 * n + d) / (2 * d))
    }
}

/// Divides and rounds to the nearest integer, halves away from zero.
pub fn div_round(n: i128, d: i128) -> (r: i128)
    requires
        d > 0,
        d <= 0x1_0000_0000_0000_0000_0000_0000,
        -0x1_0000_0000_0000_0000_0000_0000 <= n <= 0x1_0000_0000_0000_0000_0000_0000,
    ensures
        r == round_div(n as int, d as int),
{
    if n >= 0 {
        (2 * n + d) / (2 * d)
    } else {
        let m: i128 = 0 - n;
        let q: i128 = (2 * m + d) / (2 * d);
        0 - q
    }
}

/// Floor of the square root of `n`: the `r >= 0` with `r * r <= n < (r + 1) * (r + 1)`.
pub open spec fn floor_sqrt(n: int) -> int {
    choose|r: int| is_floor_sqrt(n, r)
}

/// `r` is the floor square root of `n`.
pub open spec fn is_floor_sqrt(n: int, r: int) -> bool {
    0 <= r && r * r <= n < (r + 1) * (r + 1)
}

/// For non-negative `a`, `b`: `a * a < b * b` exactly when `a < b`.
pub proof fn lemma_square_lt(a: int, b: int)
    requires
        0 <= a,
        0 <= b,
    ensures
        (a * a < b * b) == (a < b),
        (a * a <= b * b) == (a <= b),
{
    if a < b {
        assert(a * a < b * b) by (nonlinear_arith)
            requires
                0 <= a < b,
        ;
    } else {
        assert(b * b <= a * a) by (nonlinear_arith)
            requires
                0 <= b <= a,
        ;
    }
    if a <= b {
        assert(a * a <= b * b) by (nonlinear_arith)
            requires
                0 <= a <= b,
        ;
    } else {
        assert(b * b < a * a) by (nonlinear_arith)
            requires
                0 <= b < a,
        ;
    }
}

/// A root that brackets `n` is the floor square root of `n`.
pub proof fn lemma_floor_sqrt_unique(n: int, r: int)
    requires
        0 <= r,
        r * r <= n < (r + 1) * (r + 1),
    ensures
        floor_sqrt(n) == r,
{
    let s = floor_sqrt(n);
    assert(is_floor_sqrt(n, r));
    assert(0 <= s && s * s <= n < (s + 1) * (s + 1));
    lemma_square_lt(s, r + 1);
    lemma_square_lt(r, s + 1);
}

/// Every non-negative integer has a floor square root.
pub proof fn lemma_floor_sqrt(n: int)
    requires
        0 <= n,
    ensures
        is_floor_sqrt(n, floor_sqrt(n)),
    decreases n,
{
    if n == 0 {
        assert(is_floor_sqrt(0, 0));
    } else {
        lemma_floor_sqrt(n - 1);
        let r = floor_sqrt(n - 1);
        if (r + 1) * (r + 1) <= n {
            assert((r + 2) * (r + 2) > n) by (nonlinear_arith)
                requires
                    (r + 1) * (r + 1) <= n,
                    n - 1 < (r + 1) * (r + 1),
                    0 <= r,
            ;
            assert(is_floor_sqrt(n, r + 1));
        } else {
            assert(is_floor_sqrt(n, r));
        }
    }
}

/// The rounding error of `round_div`: `2 d q` lies within `d` of `2 n`.
pub proof fn lemma_round_div_error(n: int, d: int)
    requires
        d > 0,
    ensures
        -d <= 2 * d * round_div(n, d) - 2 * n <= d,
{
    let q = round_div(n, d);
    if n >= 0 {
        assert(-d <= 2 * d * q - 2 * n <= d) by (nonlinear_arith)
            requires
                q == (2 * n + d) / (2 * d),
                d > 0,
        ;
    } else {
        let p = (-2 * n + d) / (2 * d);
        assert(-d <= 2 * d * p + 2 * n <= d) by (nonlinear_arith)
            requires
                p == (-2 * n + d) / (2 * d),
                d > 0,
        ;
        assert(q == -p);
        assert(2 * d * q == -(2 * d * p)) by (nonlinear_arith)
            requires
                q == -p,
        ;
    }
}

/// The largest radicand that `isqrt` takes.
pub const ISQRT_MAX: u128 = 0x10_0000_0000_0000_0000_0000_0000;

/// Floor of the square root of `n`.
pub fn isqrt(n: u128) -> (r: u128)
    requires
        n <= ISQRT_MAX,
    ensures
        r * r <= n < (r + 1) * (r + 1),
        r == floor_sqrt(n as int),
{
    let mut lo: u128 = 0;
    let mut hi: u128 = 0x8_0000_0000_0000;
    assert(hi * hi > 0x10_0000_0000_0000_0000_0000_0000u128) by (nonlinear_arith)
        requires
            hi == 0x8_0000_0000_0000u128,
    ;
    while hi - lo > 1
        invariant
            lo < hi <= 0x8_0000_0000_0000,
            lo * lo <= n,
            n < hi * hi,
        decreases hi - lo,
    {
        let mid: u128 = lo + (hi - lo) / 2;
        assert(mid * mid <= 0x8_0000_0000_0000u128 * 0x8_0000_0000_0000u128) by (nonlinear_arith)
            requires
                mid <= 0x8_0000_0000_0000u128,
        ;
        if mid * mid <= n {
            lo = mid;
        } else {
            hi = mid;
        }
    }
    proof {
        lemma_floor_sqrt_unique(n as int, lo as int);
    }
    lo
}

/// The value of `v` saturated into `[lower, upper]`, as `constraint` leaves it.
pub open spec fn clamped(v: int, lower: int, upper: int) -> int {
    if v >= upper {
        upper
    } else if v <= lower {
        lower
    } else {
        v
    }
}

/// Saturates `val` into `[lower_limit, upper_limit]`, and tells whether it was
/// constrained: a value at a limit counts as constrained.
pub fn constraint(val: &mut i64, lower_limit: i64, upper_limit: i64) -> (hit: bool)
    ensures
        *final(val) == clamped(*old(val) as int, lower_limit as int, upper_limit as int),
        hit == (*old(val) >= upper_limit || *old(val) <= lower_limit),
{
    if *val >= upper_limit {
        *val = upper_limit;
        true
    } else if *val <= lower_limit {
        *val = lower_limit;
        true
    } else {
        false
    }
}

} // verus!
