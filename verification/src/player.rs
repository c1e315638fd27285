//! Player bodies and their health: a simulated rigid tablet with position,
//! velocity, rotation, a shrinking scale once depleted, and a health value
//! that never increases during a round.

use vstd::prelude::*;

verus! {

use crate::environment::CACHET_DENSITY;
use crate::environment::HEALTH_FLOOR;
use crate::environment::INITIAL_HEALTH;
use crate::fixed::max_i64;
use crate::fixed::max_spec;
use crate::geometry::POS_LIMIT;
use crate::geometry::Rot;
use crate::geometry::VEL_LIMIT;
use crate::geometry::Vec2I;

/// One player's logical input for a tick: the four held directions, already
/// mapped from the raw control scheme by the input collaborator.
#[derive(Clone, Copy, PartialEq, Eq, Structural, Debug)]
pub struct DirInput {
    pub up: bool,
    pub left: bool,
    pub right: bool,
    pub down: bool,
}

impl DirInput {
    pub fn none() -> (r: DirInput)
        ensures
            r == (DirInput { up: false, left: false, right: false, down: false }),
    {
        DirInput { up: false, left: false, right: false, down: false }
    }
}

/// A player body as the simulation sees it between ticks.  `present` is false
/// once the body has been despawned; its other fields then keep their last
/// value and no system touches them again.
#[derive(Clone, Copy, PartialEq, Eq, Structural, Debug)]
pub struct PlayerState {
    pub pos: Vec2I,
    pub vel: Vec2I,
    pub ang_vel: i64,
    pub rot: Rot,
    pub health: i64,
    pub scale: i64,
    pub density: i64,
    pub present: bool,
}

impl PlayerState {
    /// Machine bounds that every system keeps: coordinates and velocities
    /// inside the fixed-point range, rotation a unit rotation, health between
    /// its floor and its initial value, scale a milli fraction.
    pub open spec fn wf(self) -> bool {
        &&& self.pos.in_bounds(POS_LIMIT as int)
        &&& self.vel.in_bounds(VEL_LIMIT as int)
        &&& -VEL_LIMIT <= self.ang_vel <= VEL_LIMIT
        &&& self.rot.wf()
        &&& HEALTH_FLOOR <= self.health <= INITIAL_HEALTH
        &&& 0 <= self.scale <= 1000
        &&& 0 <= self.density <= 100_000
    }

    pub open spec fn alive(self) -> bool {
        self.health > 0
    }

    /// A freshly seated player: full health, full scale, at rest, unrotated.
    pub fn spawn(pos: Vec2I) -> (p: PlayerState)
        requires
            pos.in_bounds(POS_LIMIT as int),
        ensures
            p.pos == pos,
            p.vel == (Vec2I { x: 0, y: 0 }),
            p.ang_vel == 0,
            p.rot == (Rot { c: 1000, s: 0 }),
            p.health == INITIAL_HEALTH,
            p.scale == 1000,
            p.density == CACHET_DENSITY,
            p.present,
            p.wf(),
    {
        PlayerState {
            pos,
            vel: Vec2I { x: 0, y: 0 },
            ang_vel: 0,
            rot: Rot { c: 1000, s: 0 },
            health: INITIAL_HEALTH,
            scale: 1000,
            density: CACHET_DENSITY,
            present: true,
        }
    }
}

/// How many of the first k players are alive.
pub open spec fn alive_upto(ps: Seq<PlayerState>, k: int) -> int
    decreases k,
{
    if k <= 0 {
        0int
    } else {
        alive_upto(ps, k - 1) + if ps[k - 1].health > 0 {
            1int
        } else {
            0int
        }
    }
}

pub open spec fn alive_count(ps: Seq<PlayerState>) -> int {
    alive_upto(ps, ps.len() as int)
}

/// The index of the last alive player among the first k, zero when none is.
pub open spec fn last_alive_upto(ps: Seq<PlayerState>, k: int) -> int
    decreases k,
{
    if k <= 0 {
        0int
    } else if ps[k - 1].health > 0 {
        k - 1
    } else {
        last_alive_upto(ps, k - 1)
    }
}

pub open spec fn last_alive(ps: Seq<PlayerState>) -> int {
    last_alive_upto(ps, ps.len() as int)
}

/// The two states agree on every field but health: what a pure damage pass
/// leaves untouched.
pub open spec fn same_but_health(a: PlayerState, b: PlayerState) -> bool {
    &&& a.pos == b.pos
    &&& a.vel == b.vel
    &&& a.ang_vel == b.ang_vel
    &&& a.rot == b.rot
    &&& a.scale == b.scale
    &&& a.density == b.density
    &&& a.present == b.present
}

/// A health decrement, clamped at the hard floor rather than wrapping: the
/// result never exceeds the old value and never leaves the admitted range.
pub open spec fn sub_health_spec(h: int, d: int) -> int {
    max_spec(h - d, HEALTH_FLOOR as int)
}

pub fn sub_health(h: i64, d: i64) -> (r: i64)
    requires
        HEALTH_FLOOR <= h <= INITIAL_HEALTH,
        0 <= d <= 1_000_000_000,
    ensures
        r == sub_health_spec(h as int, d as int),
        r <= h,
        HEALTH_FLOOR <= r <= INITIAL_HEALTH,
{
    max_i64(h - d, HEALTH_FLOOR)
}

} // verus!
