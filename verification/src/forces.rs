//! The passive force model, applied to every body with a volume each tick:
//! buoyancy and water drag while submerged, amplified gravity and air drag
//! otherwise.  Velocity is damped in place; the returned force is what the
//! external rigid-body integrator consumes for this tick.

use vstd::prelude::*;

verus! {

use crate::environment::in_water;
use crate::environment::is_in_water;
use crate::environment::DRAG_AIR_COEFFICIENT;
use crate::environment::DRAG_WATER_COEFFICIENT;
use crate::environment::FLUID_DENSITY;
use crate::environment::GRAVITY;
use crate::environment::GRAVITY_SCALE;
use crate::fixed::lemma_div_milli_bound;
use crate::fixed::lemma_mul_bound;
use crate::fixed::mul_milli;
use crate::fixed::mul_milli_spec;
use crate::fixed::MILLI;
use crate::geometry::Vec2I;
use crate::geometry::VEL_LIMIT;

/// Largest admitted body volume (milli square units).
pub const VOLUME_LIMIT: i64 = 100_000_000_000;

/// Largest admitted body mass (milli).
pub const MASS_LIMIT: i64 = 10_000_000_000_000;

/// What the integrator receives for one body and one tick.
#[derive(Clone, Copy, PartialEq, Eq, Structural, Debug)]
pub struct ForceOut {
    pub force: Vec2I,
    pub torque: i64,
}

/// The milli factor a submerged body's velocity keeps each tick.
pub const WATER_KEEP: i64 = MILLI - DRAG_WATER_COEFFICIENT;

/// The milli factor an airborne body's velocity keeps each tick.
pub const AIR_KEEP: i64 = MILLI - DRAG_AIR_COEFFICIENT;

/// Archimedes' upward force on a submerged body: fluid density times gravity
/// times displaced volume, rescaled to milli.
pub open spec fn buoyancy_spec(volume: int) -> int {
    (FLUID_DENSITY as int) * (GRAVITY as int) / 1000 * volume / 1000
}

/// The amplified downward gravity term applied while airborne: gravity times
/// the global gravity scale, tripled, times mass, rescaled to milli.
pub open spec fn air_gravity_spec(mass: int) -> int {
    (GRAVITY as int) * (GRAVITY_SCALE as int) / 1000 * 3 * mass / 1000
}

/// One velocity component after one tick of damping by a milli keep factor.
pub open spec fn damped_spec(v: int, keep: int) -> int {
    mul_milli_spec(v, keep)
}

/// Damping by a keep factor of at most one never grows a component and never
/// leaves the admitted velocity range.
proof fn lemma_damped_in_range(v: int, keep: int)
    requires
        -VEL_LIMIT <= v <= VEL_LIMIT,
        0 <= keep <= 1000,
    ensures
        -VEL_LIMIT <= damped_spec(v, keep) <= VEL_LIMIT,
{
    lemma_mul_bound(v, keep, VEL_LIMIT as int, 1000);
    lemma_div_milli_bound(v * keep, (VEL_LIMIT as int) * 1000);
    vstd::arithmetic::div_mod::lemma_div_multiples_vanish(VEL_LIMIT as int, 1000);
    assert((VEL_LIMIT as int) * 1000 == 1000 * (VEL_LIMIT as int)) by (nonlinear_arith);
}

pub fn damp_component(v: i64, keep: i64) -> (r: i64)
    requires
        -VEL_LIMIT <= v <= VEL_LIMIT,
        0 <= keep <= 1000,
    ensures
        r == damped_spec(v as int, keep as int),
        -VEL_LIMIT <= r <= VEL_LIMIT,
{
    proof {
        lemma_mul_bound(v as int, keep as int, VEL_LIMIT as int, 1000);
        lemma_damped_in_range(v as int, keep as int);
    }
    mul_milli(v, keep)
}

/// The passive per-tick force pass for one body: while submerged, damp both
/// velocities by the water coefficient and enqueue buoyancy; while airborne,
/// damp by the air coefficient and enqueue the amplified gravity term.
pub fn drag_force(pos: Vec2I, volume: i64, mass: i64, vel: &mut Vec2I, ang_vel: &mut i64) -> (out:
    ForceOut)
    requires
        0 <= volume <= VOLUME_LIMIT,
        0 <= mass <= MASS_LIMIT,
        old(vel).in_bounds(VEL_LIMIT as int),
        -VEL_LIMIT <= *old(ang_vel) <= VEL_LIMIT,
    ensures
        in_water(pos) ==> {
            &&& final(vel).x == damped_spec(old(vel).x as int, WATER_KEEP as int)
            &&& final(vel).y == damped_spec(old(vel).y as int, WATER_KEEP as int)
            &&& *final(ang_vel) == damped_spec(*old(ang_vel) as int, WATER_KEEP as int)
            &&& out.force.x == 0
            &&& out.force.y == buoyancy_spec(volume as int)
        },
        !in_water(pos) ==> {
            &&& final(vel).x == damped_spec(old(vel).x as int, AIR_KEEP as int)
            &&& final(vel).y == damped_spec(old(vel).y as int, AIR_KEEP as int)
            &&& *final(ang_vel) == damped_spec(*old(ang_vel) as int, AIR_KEEP as int)
            &&& out.force.x == 0
            &&& out.force.y == -air_gravity_spec(mass as int)
        },
        out.torque == 0,
        final(vel).in_bounds(VEL_LIMIT as int),
        -VEL_LIMIT <= *final(ang_vel) <= VEL_LIMIT,
{
    if is_in_water(pos) {
        proof {
            lemma_mul_bound(63_700, volume as int, 63_700, VOLUME_LIMIT as int);
            vstd::arithmetic::div_mod::lemma_div_pos_is_pos(63_700 * (volume as int), 1000);
            vstd::arithmetic::div_mod::lemma_div_is_ordered(
                63_700 * (volume as int),
                63_700 * (VOLUME_LIMIT as int),
                1000,
            );
        }
        let base: u64 = 63_700;
        proof {
            assert((FLUID_DENSITY as int) * (GRAVITY as int) / 1000 == 63_700);
        }
        let archimede: i64 = (base * (volume as u64) / (MILLI as u64)) as i64;
        *vel = Vec2I {
            x: damp_component(vel.x, WATER_KEEP),
            y: damp_component(vel.y, WATER_KEEP),
        };
        *ang_vel = damp_component(*ang_vel, WATER_KEEP);
        ForceOut { force: Vec2I { x: 0, y: archimede }, torque: 0 }
    } else {
        proof {
            lemma_mul_bound(352_800, mass as int, 352_800, MASS_LIMIT as int);
            vstd::arithmetic::div_mod::lemma_div_pos_is_pos(352_800 * (mass as int), 1000);
            vstd::arithmetic::div_mod::lemma_div_is_ordered(
                352_800 * (mass as int),
                352_800 * (MASS_LIMIT as int),
                1000,
            );
        }
        let base: u64 = 352_800;
        proof {
            assert((GRAVITY as int) * (GRAVITY_SCALE as int) / 1000 * 3 == 352_800);
        }
        let double_gravity: i64 = (base * (mass as u64) / (MILLI as u64)) as i64;
        *vel = Vec2I { x: damp_component(vel.x, AIR_KEEP), y: damp_component(vel.y, AIR_KEEP) };
        *ang_vel = damp_component(*ang_vel, AIR_KEEP);
        ForceOut { force: Vec2I { x: 0, y: -double_gravity }, torque: 0 }
    }
}

/// A fully submerged body at rest receives a strictly upward net force from
/// the force model: its one vertical contribution is buoyancy, positive for
/// every body with positive volume, and no gravity term is enqueued while
/// submerged.
pub proof fn lemma_submerged_net_force_upward(volume: int)
    requires
        1 <= volume,
    ensures
        buoyancy_spec(volume) > 0,
{
    assert(63_700 * volume >= 63_700) by (nonlinear_arith)
        requires
            1 <= volume,
    ;
    vstd::arithmetic::div_mod::lemma_div_is_ordered(63_700, 63_700 * volume, 1000);
    assert((FLUID_DENSITY as int) * (GRAVITY as int) / 1000 == 63_700);
}

} // verus!
