//! Fixed-point helpers: a 2D integer vector, an exact integer square root,
//! and clamping.

use vstd::prelude::*;

verus! {

/// A 2D vector in milliunits.
#[derive(Clone, Copy, Debug, PartialEq, Eq, Structural)]
pub struct Vec2i {
    pub x: i64,
    pub y: i64,
}

impl Vec2i {
    pub fn new(x: i64, y: i64) -> (v: Vec2i)
        ensures
            v.x == x,
            v.y == y,
    {
        Vec2i { x, y }
    }
}

/// The floor of the square root of `n`: the largest `r` with `r * r <= n`.
pub open spec fn isqrt_spec(n: nat) -> nat
    decreases n,
{
    if n == 0 {
        0
    } else if (isqrt_spec((n - 1) as nat) + 1) * (isqrt_spec((n - 1) as nat) + 1) <= n {
        isqrt_spec((n - 1) as nat) + 1
    } else {
        isqrt_spec((n - 1) as nat)
    }
}

/// `isqrt_spec(n)` is the floor of the square root: its square is at most
/// `n`, and the next square is beyond `n`.
pub proof fn lemma_isqrt_bounds(n: nat)
    ensures
        isqrt_spec(n) * isqrt_spec(n) <= n,
        n < (isqrt_spec(n) + 1) * (isqrt_spec(n) + 1),
    decreases n,
{
    if n == 0 {
        assert(isqrt_spec(0) == 0);
        assert(0 < (isqrt_spec(0) + 1) * (isqrt_spec(0) + 1)) by (nonlinear_arith)
            requires isqrt_spec(0) == 0;
    } else {
        let s = isqrt_spec((n - 1) as nat);
        lemma_isqrt_bounds((n - 1) as nat);
        if (s + 1) * (s + 1) <= n {
            assert(isqrt_spec(n) == s + 1);
            assert((s + 1) * (s + 1) < (s + 2) * (s + 2)) by (nonlinear_arith);
            assert(n < (s + 2) * (s + 2));
        } else {
            assert(isqrt_spec(n) == s);
            assert(s * s <= n);
        }
    }
}

/// Only one natural number squares to at most `n` while the next square
/// exceeds `n`, so any such `r` is `isqrt_spec(n)`.
pub proof fn lemma_isqrt_unique(n: nat, r: nat)
    requires
        r * r <= n,
        n < (r + 1) * (r + 1),
    ensures
        r == isqrt_spec(n),
{
    lemma_isqrt_bounds(n);
    let s = isqrt_spec(n);
    if r < s {
        assert((r + 1) * (r + 1) <= s * s) by (nonlinear_arith)
            requires r + 1 <= s;
    }
    if s < r {
        assert((s + 1) * (s + 1) <= r * r) by (nonlinear_arith)
            requires s + 1 <= r;
    }
}

/// Integer square root by bisection.
pub fn isqrt(n: u64) -> (r: u64)
    requires
        n <= 8_000_000_000_000_000_000,
    ensures
        r == isqrt_spec(n as nat),
        r * r <= n,
        n < (r + 1) * (r + 1),
        r <= 3_000_000_000,
{
    let mut lo: u64 = 0;
    let mut hi: u64 = 3_000_000_001;
    proof {
        assert(n < hi * hi) by (nonlinear_arith)
            requires n <= 8_000_000_000_000_000_000u64, hi == 3_000_000_001u64;
    }
    while hi - lo > 1
        invariant
            lo < hi <= 3_000_000_001,
            lo * lo <= n,
            n < hi * hi,
        decreases hi - lo,
    {
        let mid = lo + (hi - lo) / 2;
        proof {
            assert(mid * mid <= 3_000_000_001u64 * 3_000_000_001u64) by (nonlinear_arith)
                requires mid <= 3_000_000_001u64;
        }
        if mid * mid <= n {
            lo = mid;
        } else {
            hi = mid;
        }
    }
    proof { lemma_isqrt_unique(n as nat, lo as nat); }
    lo
}

/// The quotient of `a` and `d` rounded toward zero (for positive `d`), the
/// way hardware division rounds.
pub open spec fn div_trunc(a: int, d: int) -> int
    recommends
        d > 0,
{
    if a >= 0 {
        a / d
    } else {
        -((-a) / d)
    }
}

/// Division rounding toward zero.
pub fn div_trunc_i64(a: i64, d: i64) -> (r: i64)
    requires
        d > 0,
        a > i64::MIN,
    ensures
        r == div_trunc(a as int, d as int),
        a >= 0 ==> 0 <= r <= a,
        a < 0 ==> a <= r <= 0,
{
    if a >= 0 {
        proof {
            assert(0 <= a as int / d as int <= a) by (nonlinear_arith)
                requires a >= 0, d >= 1;
        }
        a / d
    } else {
        let neg = -a;
        proof {
            assert(0 <= neg as int / d as int <= neg) by (nonlinear_arith)
                requires neg >= 0, d >= 1;
        }
        -(neg / d)
    }
}

/// A truncated quotient is bounded by `m` whenever the dividend is bounded
/// by `m` times the divisor.
pub proof fn lemma_div_trunc_bound(a: int, d: int, m: int)
    requires
        d >= 1,
        m >= 0,
        a <= m * d,
        -a <= m * d,
    ensures
        -m <= div_trunc(a, d) <= m,
{
    if a >= 0 {
        assert(0 <= a / d <= m) by (nonlinear_arith)
            requires 0 <= a, a <= m * d, d >= 1, m >= 0;
    } else {
        assert(0 <= (-a) / d <= m) by (nonlinear_arith)
            requires 0 <= -a, -a <= m * d, d >= 1, m >= 0;
    }
}

/// `x` forced into `[low, high]`.
pub fn clamp_i64(x: i64, low: i64, high: i64) -> (r: i64)
    requires
        low <= high,
    ensures
        low <= r <= high,
        low <= x <= high ==> r == x,
        x < low ==> r == low,
        x > high ==> r == high,
{
    if x < low {
        low
    } else if x > high {
        high
    } else {
        x
    }
}

} // verus!
