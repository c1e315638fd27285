//! The thrust controller: maps one player's held directions to off-centre
//! forces on the tablet and charges the drive-wear health cost.  Thrust only
//! acts while the tablet is submerged and its pilot alive; each active
//! direction costs a fixed health amount per tick.

use vstd::prelude::*;

verus! {

use crate::environment::in_water;
use crate::environment::is_in_water;
use crate::environment::GLOBAL_DAMAGE_SCALE;
use crate::environment::TURBO_FORCE;
use crate::environment::TURBO_TICK_DAMAGE;
use crate::forces::ForceOut;
use crate::geometry::cross_int;
use crate::geometry::cross_milli;
use crate::geometry::rotate;
use crate::geometry::rot_x_int;
use crate::geometry::rot_y_int;
use crate::geometry::Rot;
use crate::geometry::Vec2I;
use crate::player::sub_health;
use crate::player::sub_health_spec;
use crate::player::DirInput;
use crate::player::PlayerState;

/// The right-or-up command drives the tablet from its bottom-left corner.
pub open spec fn active_rightup(i: DirInput) -> bool {
    i.right || i.up
}

/// The left-or-up command drives the tablet from its bottom-right corner.
pub open spec fn active_leftup(i: DirInput) -> bool {
    i.left || i.up
}

/// The down command reverses the drive at a top attachment point.
pub open spec fn active_down(i: DirInput) -> bool {
    i.down
}

pub open spec fn branches_active(i: DirInput) -> int {
    (if active_rightup(i) {
        1int
    } else {
        0int
    }) + (if active_leftup(i) {
        1int
    } else {
        0int
    }) + (if active_down(i) {
        1int
    } else {
        0int
    })
}

/// Health cost of one active thrust direction for one tick: the turbo tick
/// damage under the global damage scale.
pub open spec fn turbo_branch_cost() -> int {
    (TURBO_TICK_DAMAGE as int) * (GLOBAL_DAMAGE_SCALE as int) / 1000
}

pub open spec fn turbo_cost(i: DirInput) -> int {
    turbo_branch_cost() * branches_active(i)
}

/// The lateral branches push the rotated upward amplitude; the down branch
/// pushes its negation.
pub open spec fn up_force_x(rot: Rot) -> int {
    rot_x_int(rot, 0, TURBO_FORCE as int)
}

pub open spec fn up_force_y(rot: Rot) -> int {
    rot_y_int(rot, 0, TURBO_FORCE as int)
}

pub open spec fn down_force_x(rot: Rot) -> int {
    rot_x_int(rot, 0, -TURBO_FORCE as int)
}

pub open spec fn down_force_y(rot: Rot) -> int {
    rot_y_int(rot, 0, -TURBO_FORCE as int)
}

pub open spec fn thrust_force_x(i: DirInput, rot: Rot) -> int {
    (if active_rightup(i) {
        up_force_x(rot)
    } else {
        0int
    }) + (if active_leftup(i) {
        up_force_x(rot)
    } else {
        0int
    }) + (if active_down(i) {
        down_force_x(rot)
    } else {
        0int
    })
}

pub open spec fn thrust_force_y(i: DirInput, rot: Rot) -> int {
    (if active_rightup(i) {
        up_force_y(rot)
    } else {
        0int
    }) + (if active_leftup(i) {
        up_force_y(rot)
    } else {
        0int
    }) + (if active_down(i) {
        down_force_y(rot)
    } else {
        0int
    })
}

/// Torque of one branch: the rotated attachment point crossed with the
/// rotated amplitude (the application centre is the body's own centre).
pub open spec fn branch_torque(rot: Rot, px: int, py: int, fx_amp: int, fy_amp: int) -> int {
    cross_int(
        rot_x_int(rot, px, py),
        rot_y_int(rot, px, py),
        rot_x_int(rot, fx_amp, fy_amp),
        rot_y_int(rot, fx_amp, fy_amp),
    )
}

pub open spec fn thrust_torque(i: DirInput, rot: Rot) -> int {
    (if active_rightup(i) {
        branch_torque(rot, -32_000, -13_000, 0, TURBO_FORCE as int)
    } else {
        0int
    }) + (if active_leftup(i) {
        branch_torque(rot, 32_000, -13_000, 0, TURBO_FORCE as int)
    } else {
        0int
    }) + (if active_down(i) {
        branch_torque(rot, 0, 13_000, 0, -TURBO_FORCE as int)
    } else {
        0int
    })
}

/// The total thrust force of a tick stays within three amplitudes.
pub proof fn lemma_thrust_force_bounds(i: DirInput, rot: Rot)
    requires
        rot.wf(),
    ensures
        -90_000_000_000 <= thrust_force_x(i, rot) <= 90_000_000_000,
        -90_000_000_000 <= thrust_force_y(i, rot) <= 90_000_000_000,
{
    crate::fixed::lemma_mul_bound(rot.s as int, TURBO_FORCE as int, 1000, TURBO_FORCE as int);
    crate::fixed::lemma_mul_bound(rot.c as int, TURBO_FORCE as int, 1000, TURBO_FORCE as int);
    crate::fixed::lemma_mul_bound(rot.s as int, -TURBO_FORCE as int, 1000, TURBO_FORCE as int);
    crate::fixed::lemma_mul_bound(rot.c as int, -TURBO_FORCE as int, 1000, TURBO_FORCE as int);
    crate::fixed::lemma_div_milli_bound(rot.c * 0 - rot.s * TURBO_FORCE, 30_000_000_000_000);
    crate::fixed::lemma_div_milli_bound(rot.s * 0 + rot.c * TURBO_FORCE, 30_000_000_000_000);
    crate::fixed::lemma_div_milli_bound(rot.c * 0 - rot.s * (-TURBO_FORCE as int), 30_000_000_000_000);
    crate::fixed::lemma_div_milli_bound(rot.s * 0 + rot.c * (-TURBO_FORCE as int), 30_000_000_000_000);
}

/// Thrust is effective: the player is submerged and still alive.
pub open spec fn thrust_effective(p: PlayerState) -> bool {
    in_water(p.pos) && p.health > 0
}

/// One tick of the thrust controller for one player: while effective, every
/// held direction applies its off-centre force and charges the drive-wear
/// cost; out of the liquid or depleted, held directions are ignored.
pub fn use_turbo(input: DirInput, p: &mut PlayerState) -> (out: ForceOut)
    requires
        old(p).wf(),
    ensures
        final(p).wf(),
        !thrust_effective(*old(p)) ==> *final(p) == *old(p) && out == (ForceOut {
            force: Vec2I { x: 0, y: 0 },
            torque: 0,
        }),
        thrust_effective(*old(p)) ==> {
            &&& final(p).health == sub_health_spec(old(p).health as int, turbo_cost(input))
            &&& final(p).pos == old(p).pos
            &&& final(p).vel == old(p).vel
            &&& final(p).ang_vel == old(p).ang_vel
            &&& final(p).rot == old(p).rot
            &&& final(p).scale == old(p).scale
            &&& final(p).density == old(p).density
            &&& final(p).present == old(p).present
            &&& out.force.x == thrust_force_x(input, old(p).rot)
            &&& out.force.y == thrust_force_y(input, old(p).rot)
            &&& out.torque == thrust_torque(input, old(p).rot)
        },
        final(p).health <= old(p).health,
{
    let submerged = is_in_water(p.pos);
    if !(submerged && p.health > 0) {
        return ForceOut { force: Vec2I { x: 0, y: 0 }, torque: 0 };
    }
    let amplitude = Vec2I { x: 0, y: TURBO_FORCE };
    let reversed = Vec2I { x: 0, y: -TURBO_FORCE };
    let left_bottom = Vec2I { x: -32_000, y: -13_000 };
    let right_bottom = Vec2I { x: 32_000, y: -13_000 };
    let top = Vec2I { x: 0, y: 13_000 };
    let mut fx: i64 = 0;
    let mut fy: i64 = 0;
    let mut torque: i64 = 0;
    let mut cost: i64 = 0;
    proof {
        assert((TURBO_TICK_DAMAGE as int) * (GLOBAL_DAMAGE_SCALE as int) / 1000 == 300);
    }
    if input.right || input.up {
        let f = rotate(p.rot, amplitude);
        let pt = rotate(p.rot, left_bottom);
        let t = cross_milli(pt, f);
        fx = fx + f.x;
        fy = fy + f.y;
        torque = torque + t;
        cost = cost + 300;
    }
    if input.left || input.up {
        let f = rotate(p.rot, amplitude);
        let pt = rotate(p.rot, right_bottom);
        let t = cross_milli(pt, f);
        fx = fx + f.x;
        fy = fy + f.y;
        torque = torque + t;
        cost = cost + 300;
    }
    if input.down {
        let f = rotate(p.rot, reversed);
        let pt = rotate(p.rot, top);
        let t = cross_milli(pt, f);
        fx = fx + f.x;
        fy = fy + f.y;
        torque = torque + t;
        cost = cost + 300;
    }
    proof {
        assert(turbo_branch_cost() == 300);
        assert(cost == turbo_cost(input));
    }
    p.health = sub_health(p.health, cost);
    ForceOut { force: Vec2I { x: fx, y: fy }, torque }
}

} // verus!
