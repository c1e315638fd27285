//! Planar geometry in milli fixed-point: vectors, rotations given by their
//! milli cosine and sine, and axis-aligned rectangles used by the camera
//! framer.

use vstd::prelude::*;

verus! {

use crate::fixed::abs_spec;
use crate::fixed::div_milli;
use crate::fixed::div_milli_spec;
use crate::fixed::half;
use crate::fixed::half_spec;
use crate::fixed::lemma_mul_bound;
use crate::fixed::max_i64;
use crate::fixed::max_spec;
use crate::fixed::min_i64;
use crate::fixed::min_spec;
use crate::fixed::mul_milli;
use crate::fixed::mul_milli_spec;

/// Largest admitted magnitude of a position coordinate (milli units).
pub const POS_LIMIT: i64 = 1_000_000_000_000;

/// Largest admitted magnitude of a velocity component (milli units per tick).
pub const VEL_LIMIT: i64 = 2_000_000_000;

/// Largest admitted magnitude of a force component (milli units).
pub const FORCE_LIMIT: i64 = 1_000_000_000_000_000;

/// Largest admitted magnitude of a lever-arm component (milli units):
/// attachment points sit on the body, never far from its centre.
pub const ARM_LIMIT: i64 = 1_000_000;

#[derive(Clone, Copy, PartialEq, Eq, Structural, Debug)]
pub struct Vec2I {
    pub x: i64,
    pub y: i64,
}

impl Vec2I {
    pub open spec fn in_bounds(self, b: int) -> bool {
        -b <= self.x <= b && -b <= self.y <= b
    }

    pub fn new(x: i64, y: i64) -> (r: Vec2I)
        ensures
            r.x == x,
            r.y == y,
    {
        Vec2I { x, y }
    }

    pub fn zero() -> (r: Vec2I)
        ensures
            r.x == 0,
            r.y == 0,
    {
        Vec2I { x: 0, y: 0 }
    }

    pub fn add(self, o: Vec2I) -> (r: Vec2I)
        requires
            i64::MIN <= self.x + o.x <= i64::MAX,
            i64::MIN <= self.y + o.y <= i64::MAX,
        ensures
            r.x == self.x + o.x,
            r.y == self.y + o.y,
    {
        Vec2I { x: self.x + o.x, y: self.y + o.y }
    }

    /// Both components scaled by a milli factor.
    pub fn scaled(self, f: i64) -> (r: Vec2I)
        requires
            -i64::MAX <= self.x * f <= i64::MAX,
            -i64::MAX <= self.y * f <= i64::MAX,
        ensures
            r.x == mul_milli_spec(self.x as int, f as int),
            r.y == mul_milli_spec(self.y as int, f as int),
    {
        Vec2I { x: mul_milli(self.x, f), y: mul_milli(self.y, f) }
    }
}

/// A rotation, held as its action on the plane: milli cosine and milli sine.
/// The external integrator reports body rotations in this form.
#[derive(Clone, Copy, PartialEq, Eq, Structural, Debug)]
pub struct Rot {
    pub c: i64,
    pub s: i64,
}

impl Rot {
    /// Components of a unit rotation never leave the milli unit interval.
    pub open spec fn wf(self) -> bool {
        -1000 <= self.c <= 1000 && -1000 <= self.s <= 1000
    }

    pub fn identity() -> (r: Rot)
        ensures
            r.c == 1000,
            r.s == 0,
            r.wf(),
    {
        Rot { c: 1000, s: 0 }
    }
}

pub open spec fn rot_x_int(r: Rot, x: int, y: int) -> int {
    div_milli_spec(r.c * x - r.s * y)
}

pub open spec fn rot_y_int(r: Rot, x: int, y: int) -> int {
    div_milli_spec(r.s * x + r.c * y)
}

pub open spec fn rot_x_spec(r: Rot, v: Vec2I) -> int {
    rot_x_int(r, v.x as int, v.y as int)
}

pub open spec fn rot_y_spec(r: Rot, v: Vec2I) -> int {
    rot_y_int(r, v.x as int, v.y as int)
}

/// Applies the rotation matrix [[c, -s], [s, c]] and rescales to milli.
pub fn rotate(r: Rot, v: Vec2I) -> (w: Vec2I)
    requires
        r.wf(),
        v.in_bounds(POS_LIMIT as int),
    ensures
        w.x == rot_x_spec(r, v),
        w.y == rot_y_spec(r, v),
        w.in_bounds(abs_spec(v.x as int) + abs_spec(v.y as int)),
{
    proof {
        lemma_mul_bound(r.c as int, v.x as int, 1000, abs_spec(v.x as int));
        lemma_mul_bound(r.s as int, v.y as int, 1000, abs_spec(v.y as int));
        lemma_mul_bound(r.s as int, v.x as int, 1000, abs_spec(v.x as int));
        lemma_mul_bound(r.c as int, v.y as int, 1000, abs_spec(v.y as int));
    }
    let xn: i64 = r.c * v.x - r.s * v.y;
    let yn: i64 = r.s * v.x + r.c * v.y;
    proof {
        let b: int = 1000 * (abs_spec(v.x as int) + abs_spec(v.y as int));
        crate::fixed::lemma_div_milli_bound(xn as int, b);
        crate::fixed::lemma_div_milli_bound(yn as int, b);
        vstd::arithmetic::div_mod::lemma_div_multiples_vanish(
            abs_spec(v.x as int) + abs_spec(v.y as int),
            1000,
        );
    }
    Vec2I { x: div_milli(xn), y: div_milli(yn) }
}

/// The torque of a force applied with a lever arm, as the milli-rescaled
/// two-dimensional cross product.
pub open spec fn cross_int(ax: int, ay: int, fx: int, fy: int) -> int {
    div_milli_spec(ax * fy - ay * fx)
}

pub open spec fn cross_spec(arm: Vec2I, force: Vec2I) -> int {
    cross_int(arm.x as int, arm.y as int, force.x as int, force.y as int)
}

pub fn cross_milli(arm: Vec2I, force: Vec2I) -> (t: i64)
    requires
        arm.in_bounds(ARM_LIMIT as int),
        force.in_bounds(FORCE_LIMIT as int),
    ensures
        t == cross_spec(arm, force),
        -2_000_000_000_000_000_000 <= t <= 2_000_000_000_000_000_000,
{
    proof {
        lemma_mul_bound(arm.x as int, force.y as int, ARM_LIMIT as int, FORCE_LIMIT as int);
        lemma_mul_bound(arm.y as int, force.x as int, ARM_LIMIT as int, FORCE_LIMIT as int);
    }
    let n: i128 = (arm.x as i128) * (force.y as i128) - (arm.y as i128) * (force.x as i128);
    let neg: bool = n < 0;
    let mag: u128 = if neg {
        (-n) as u128
    } else {
        n as u128
    };
    let q: u128 = mag / 1000;
    proof {
        vstd::arithmetic::div_mod::lemma_div_is_ordered(
            mag as int,
            2_000_000_000_000_000_000_000,
            1000,
        );
        vstd::arithmetic::div_mod::lemma_div_pos_is_pos(mag as int, 1000);
    }
    if neg {
        -(q as i64)
    } else {
        q as i64
    }
}

/// The magnitude of a velocity, as the integer square-root floor of the sum
/// of squared components.
pub open spec fn speed_spec(v: Vec2I) -> int {
    crate::fixed::sqrt_floor(v.x * v.x + v.y * v.y)
}

pub fn speed_of(v: Vec2I) -> (r: i64)
    requires
        v.in_bounds(VEL_LIMIT as int),
    ensures
        r == speed_spec(v),
        0 <= r <= 3_000_000_000,
{
    proof {
        lemma_mul_bound(v.x as int, v.x as int, VEL_LIMIT as int, VEL_LIMIT as int);
        lemma_mul_bound(v.y as int, v.y as int, VEL_LIMIT as int, VEL_LIMIT as int);
    }
    let ax: u64 = if v.x >= 0 {
        v.x as u64
    } else {
        (-v.x) as u64
    };
    let ay: u64 = if v.y >= 0 {
        v.y as u64
    } else {
        (-v.y) as u64
    };
    proof {
        assert((ax as int) * (ax as int) == (v.x as int) * (v.x as int)) by (nonlinear_arith)
            requires
                ax as int == abs_spec(v.x as int),
        ;
        assert((ay as int) * (ay as int) == (v.y as int) * (v.y as int)) by (nonlinear_arith)
            requires
                ay as int == abs_spec(v.y as int),
        ;
    }
    let sum: u64 = ax * ax + ay * ay;
    let r: u64 = crate::fixed::isqrt(sum);
    proof {
        assert(r as int <= 3_000_000_000) by (nonlinear_arith)
            requires
                crate::fixed::is_sqrt_floor(sum as int, r as int),
                sum as int <= 8_000_000_000_000_000_000,
        ;
    }
    r as i64
}

/// An axis-aligned rectangle; the camera's regions of interest.
#[derive(Clone, Copy, PartialEq, Eq, Structural, Debug)]
pub struct RectI {
    pub min_x: i64,
    pub min_y: i64,
    pub max_x: i64,
    pub max_y: i64,
}

impl RectI {
    pub open spec fn coords_in(self, b: int) -> bool {
        &&& -b <= self.min_x <= b
        &&& -b <= self.min_y <= b
        &&& -b <= self.max_x <= b
        &&& -b <= self.max_y <= b
    }

    /// self encloses o, which is exactly when the union of the two is self.
    pub open spec fn contains_spec(self, o: RectI) -> bool {
        self.min_x <= o.min_x && self.min_y <= o.min_y && o.max_x <= self.max_x && o.max_y
            <= self.max_y
    }

    pub fn new(min_x: i64, min_y: i64, max_x: i64, max_y: i64) -> (r: RectI)
        ensures
            r == (RectI { min_x, min_y, max_x, max_y }),
    {
        RectI { min_x, min_y, max_x, max_y }
    }

    /// The smallest rectangle enclosing self and the point p.
    pub fn union_point(self, p: Vec2I) -> (r: RectI)
        ensures
            r.min_x == min_spec(self.min_x as int, p.x as int),
            r.min_y == min_spec(self.min_y as int, p.y as int),
            r.max_x == max_spec(self.max_x as int, p.x as int),
            r.max_y == max_spec(self.max_y as int, p.y as int),
    {
        RectI {
            min_x: min_i64(self.min_x, p.x),
            min_y: min_i64(self.min_y, p.y),
            max_x: max_i64(self.max_x, p.x),
            max_y: max_i64(self.max_y, p.y),
        }
    }

    /// Grows (or, for a negative amount, shrinks) every side by `amount`.
    pub fn inflate(self, amount: i64) -> (r: RectI)
        requires
            i64::MIN <= self.min_x - amount <= i64::MAX,
            i64::MIN <= self.min_y - amount <= i64::MAX,
            i64::MIN <= self.max_x + amount <= i64::MAX,
            i64::MIN <= self.max_y + amount <= i64::MAX,
        ensures
            r.min_x == self.min_x - amount,
            r.min_y == self.min_y - amount,
            r.max_x == self.max_x + amount,
            r.max_y == self.max_y + amount,
    {
        RectI {
            min_x: self.min_x - amount,
            min_y: self.min_y - amount,
            max_x: self.max_x + amount,
            max_y: self.max_y + amount,
        }
    }

    pub fn translate(self, d: Vec2I) -> (r: RectI)
        requires
            i64::MIN <= self.min_x + d.x <= i64::MAX,
            i64::MIN <= self.min_y + d.y <= i64::MAX,
            i64::MIN <= self.max_x + d.x <= i64::MAX,
            i64::MIN <= self.max_y + d.y <= i64::MAX,
        ensures
            r.min_x == self.min_x + d.x,
            r.min_y == self.min_y + d.y,
            r.max_x == self.max_x + d.x,
            r.max_y == self.max_y + d.y,
    {
        RectI {
            min_x: self.min_x + d.x,
            min_y: self.min_y + d.y,
            max_x: self.max_x + d.x,
            max_y: self.max_y + d.y,
        }
    }

    /// The larger of width and height.
    pub open spec fn max_extent_spec(self) -> int {
        max_spec(self.max_x - self.min_x, self.max_y - self.min_y)
    }

    pub fn max_extent(self) -> (r: i64)
        requires
            i64::MIN <= self.max_x - self.min_x <= i64::MAX,
            i64::MIN <= self.max_y - self.min_y <= i64::MAX,
        ensures
            r == self.max_extent_spec(),
    {
        max_i64(self.max_x - self.min_x, self.max_y - self.min_y)
    }

    pub fn center(self) -> (r: Vec2I)
        requires
            i64::MIN < self.min_x + self.max_x <= i64::MAX,
            i64::MIN < self.min_y + self.max_y <= i64::MAX,
        ensures
            r.x == half_spec(self.min_x + self.max_x),
            r.y == half_spec(self.min_y + self.max_y),
    {
        Vec2I { x: half(self.min_x + self.max_x), y: half(self.min_y + self.max_y) }
    }

    pub fn contains(self, o: RectI) -> (r: bool)
        ensures
            r == self.contains_spec(o),
    {
        self.min_x <= o.min_x && self.min_y <= o.min_y && o.max_x <= self.max_x && o.max_y
            <= self.max_y
    }
}

} // verus!
