//! Fixed-point arithmetic on a milli (1/1000) scale.
//!
//! Every continuous quantity of the simulation (positions, velocities,
//! forces, zoom, health) is carried as an `i64` holding the value times
//! 1000.  Products of two scaled values are rescaled with a division that
//! truncates toward zero, so that the executable code and the mathematical
//! model agree on negative operands.

use vstd::prelude::*;

verus! {

use vstd::arithmetic::div_mod::lemma_div_is_ordered;
use vstd::arithmetic::div_mod::lemma_div_nonincreasing;

/// The fixed-point scale: stored values are the real value times 1000.
pub const MILLI: i64 = 1000;

/// Division of a scaled value by the scale, truncating toward zero.
pub open spec fn div_milli_spec(v: int) -> int {
    if v >= 0 {
        v / 1000
    } else {
        -((-v) / 1000)
    }
}

/// Product of a scaled value and a scaled factor, rescaled to milli.
pub open spec fn mul_milli_spec(a: int, b: int) -> int {
    div_milli_spec(a * b)
}

pub open spec fn min_spec(a: int, b: int) -> int {
    if a <= b {
        a
    } else {
        b
    }
}

pub open spec fn max_spec(a: int, b: int) -> int {
    if a >= b {
        a
    } else {
        b
    }
}

pub open spec fn abs_spec(v: int) -> int {
    if v >= 0 {
        v
    } else {
        -v
    }
}

pub open spec fn clamp_spec(v: int, lo: int, hi: int) -> int {
    if v < lo {
        lo
    } else if v > hi {
        hi
    } else {
        v
    }
}

/// |a| <= ba and |b| <= bb bound the product by ba * bb.
pub proof fn lemma_mul_bound(a: int, b: int, ba: int, bb: int)
    by (nonlinear_arith)
    requires
        -ba <= a <= ba,
        -bb <= b <= bb,
        0 <= ba,
        0 <= bb,
    ensures
        -(ba * bb) <= a * b <= ba * bb,
{
}

/// Rescaling keeps a value inside any symmetric bound that held before.
pub proof fn lemma_div_milli_bound(v: int, b: int)
    requires
        -b <= v <= b,
        0 <= b,
    ensures
        -b <= div_milli_spec(v) <= b,
        -(b / 1000) <= div_milli_spec(v) <= b / 1000,
{
    if v >= 0 {
        lemma_div_nonincreasing(v, 1000);
        lemma_div_is_ordered(v, b, 1000);
        vstd::arithmetic::div_mod::lemma_div_pos_is_pos(v, 1000);
    } else {
        lemma_div_nonincreasing(-v, 1000);
        lemma_div_is_ordered(-v, b, 1000);
        vstd::arithmetic::div_mod::lemma_div_pos_is_pos(-v, 1000);
    }
}

pub fn div_milli(v: i64) -> (r: i64)
    requires
        v > i64::MIN,
    ensures
        r == div_milli_spec(v as int),
{
    if v >= 0 {
        ((v as u64) / 1000) as i64
    } else {
        let m = ((-v) as u64) / 1000;
        proof {
            lemma_div_nonincreasing(-v as int, 1000);
        }
        -(m as i64)
    }
}

pub fn mul_milli(a: i64, b: i64) -> (r: i64)
    requires
        -i64::MAX <= a * b <= i64::MAX,
    ensures
        r == mul_milli_spec(a as int, b as int),
{
    let p: i64 = a * b;
    div_milli(p)
}

pub fn min_i64(a: i64, b: i64) -> (r: i64)
    ensures
        r == min_spec(a as int, b as int),
{
    if a <= b {
        a
    } else {
        b
    }
}

pub fn max_i64(a: i64, b: i64) -> (r: i64)
    ensures
        r == max_spec(a as int, b as int),
{
    if a >= b {
        a
    } else {
        b
    }
}

pub fn clamp_i64(v: i64, lo: i64, hi: i64) -> (r: i64)
    requires
        lo <= hi,
    ensures
        r == clamp_spec(v as int, lo as int, hi as int),
{
    if v < lo {
        lo
    } else if v > hi {
        hi
    } else {
        v
    }
}

/// Halving that truncates toward zero, matching the executable code on
/// negative values.
pub open spec fn half_spec(v: int) -> int {
    if v >= 0 {
        v / 2
    } else {
        -((-v) / 2)
    }
}

pub fn half(v: i64) -> (r: i64)
    requires
        v > i64::MIN,
    ensures
        r == half_spec(v as int),
{
    if v >= 0 {
        ((v as u64) / 2) as i64
    } else {
        let m = ((-v) as u64) / 2;
        proof {
            lemma_div_nonincreasing(-v as int, 2);
        }
        -(m as i64)
    }
}

/// r is the integer square-root floor of n.
pub open spec fn is_sqrt_floor(n: int, r: int) -> bool {
    0 <= r && r * r <= n && n < (r + 1) * (r + 1)
}

/// The integer square-root floor, as a mathematical function.
pub open spec fn sqrt_floor(n: int) -> int {
    choose|r: int| is_sqrt_floor(n, r)
}

pub proof fn lemma_sqrt_floor_unique(n: int, r: int)
    requires
        is_sqrt_floor(n, r),
    ensures
        sqrt_floor(n) == r,
{
    assert(exists|x: int| is_sqrt_floor(n, x));
    let r2 = choose|x: int| is_sqrt_floor(n, x);
    assert(r == r2) by (nonlinear_arith)
        requires
            is_sqrt_floor(n, r),
            is_sqrt_floor(n, r2),
    ;
}

/// Every nonnegative integer has a square-root floor, so the chosen value
/// satisfies the defining property and in particular is nonnegative.
pub proof fn lemma_sqrt_floor_exists(n: int)
    requires
        0 <= n,
    ensures
        is_sqrt_floor(n, sqrt_floor(n)),
        0 <= sqrt_floor(n),
    decreases n,
{
    if n == 0 {
        assert(is_sqrt_floor(0, 0));
    } else {
        lemma_sqrt_floor_exists(n - 1);
        let r = sqrt_floor(n - 1);
        if n < (r + 1) * (r + 1) {
            assert(is_sqrt_floor(n, r));
        } else {
            assert(is_sqrt_floor(n, r + 1)) by (nonlinear_arith)
                requires
                    is_sqrt_floor(n - 1, r),
                    (r + 1) * (r + 1) <= n,
            ;
        }
        lemma_sqrt_floor_unique(n, choose|x: int| is_sqrt_floor(n, x));
    }
}

/// Binary search for the integer square root.
pub fn isqrt(n: u64) -> (r: u64)
    ensures
        is_sqrt_floor(n as int, r as int),
        r == sqrt_floor(n as int),
{
    let mut lo: u64 = 0;
    let mut hi: u64 = 4_294_967_296;
    proof {
        assert((4_294_967_296int) * (4_294_967_296int) > n as int);
    }
    while lo + 1 < hi
        invariant
            lo < hi <= 4_294_967_296,
            (lo as int) * (lo as int) <= n as int,
            (n as int) < (hi as int) * (hi as int),
        decreases hi - lo,
    {
        let mid = lo + (hi - lo) / 2;
        proof {
            lemma_mul_bound(mid as int, mid as int, 4_294_967_296, 4_294_967_296);
        }
        if (mid as u128) * (mid as u128) <= n as u128 {
            lo = mid;
        } else {
            hi = mid;
        }
    }
    proof {
        lemma_sqrt_floor_unique(n as int, lo as int);
    }
    lo
}

} // verus!
