//! The camera framer.  Each presentation frame it unions an arena-sized base
//! rectangle with every living player's position, inflates the result by a
//! buffer margin, smooths the camera position toward its centre with
//! exponential elasticity, steps the zoom out or in by a small multiplicative
//! factor with a hysteresis band, and clamps the zoom to its fixed bounds.

use vstd::prelude::*;

verus! {

use crate::environment::CAM_BUFFER;
use crate::environment::CAM_ELASTICITY;
use crate::environment::CAM_ZOOM_MAX;
use crate::environment::CAM_ZOOM_MIN;
use crate::environment::CAM_ZOOM_SPEED;
use crate::environment::GLASS_BOTTOM_Y;
use crate::environment::GLASS_RADIUS;
use crate::environment::GLASS_TOP_Y;
use crate::fixed::clamp_i64;
use crate::fixed::clamp_spec;
use crate::fixed::div_milli;
use crate::fixed::div_milli_spec;
use crate::fixed::half;
use crate::fixed::half_spec;
use crate::fixed::lemma_div_milli_bound;
use crate::fixed::lemma_mul_bound;
use crate::fixed::mul_milli;
use crate::fixed::mul_milli_spec;
use crate::geometry::RectI;
use crate::geometry::Vec2I;
use crate::geometry::POS_LIMIT;
use crate::player::PlayerState;

/// Largest admitted magnitude of a camera coordinate: wider than any player
/// position so that the smoothed position can lag behind a target anywhere
/// in the world.
pub const CAM_POS_LIMIT: i64 = 2_000_000_000_000;

/// Largest admitted magnitude of a view-rectangle coordinate.
pub const VIEW_LIMIT: i64 = 10_000_000_000_000;

/// Largest zoom value admitted on entry; the update clamps far below it.
pub const ZOOM_IN_LIMIT: i64 = 1_000_000_000_000_000;

/// The camera: a tracked position and a zoom scalar, mutated once per frame.
#[derive(Clone, Copy, PartialEq, Eq, Structural, Debug)]
pub struct CameraState {
    pub pos: Vec2I,
    pub zoom: i64,
}

impl CameraState {
    pub open spec fn wf(self) -> bool {
        self.pos.in_bounds(CAM_POS_LIMIT as int) && 0 <= self.zoom <= ZOOM_IN_LIMIT
    }

    /// The camera a round starts with: centred, unit zoom.
    pub fn reset() -> (c: CameraState)
        ensures
            c.pos == (Vec2I { x: 0, y: 0 }),
            c.zoom == 1000,
            c.wf(),
    {
        CameraState { pos: Vec2I { x: 0, y: 0 }, zoom: 1000 }
    }
}

/// A player participates in the interest region while alive and still in the
/// world.
pub open spec fn framed(p: PlayerState) -> bool {
    p.present && p.health > 0
}

/// The arena-sized base rectangle every frame starts from; with no living
/// player the interest region degenerates to it alone.
pub open spec fn base_interest() -> RectI {
    RectI {
        min_x: ((-GLASS_RADIUS) as i64),
        min_y: GLASS_BOTTOM_Y,
        max_x: GLASS_RADIUS,
        max_y: GLASS_TOP_Y,
    }
}

pub open spec fn union_point_rect(r: RectI, p: Vec2I) -> RectI {
    RectI {
        min_x: if p.x < r.min_x {
            p.x
        } else {
            r.min_x
        },
        min_y: if p.y < r.min_y {
            p.y
        } else {
            r.min_y
        },
        max_x: if p.x > r.max_x {
            p.x
        } else {
            r.max_x
        },
        max_y: if p.y > r.max_y {
            p.y
        } else {
            r.max_y
        },
    }
}

/// The interest rectangle before inflation: the base rectangle unioned with
/// the positions of the first k players that are framed.
pub open spec fn interest_upto(ps: Seq<PlayerState>, k: int) -> RectI
    decreases k,
{
    if k <= 0 {
        base_interest()
    } else if framed(ps[k - 1]) {
        union_point_rect(interest_upto(ps, k - 1), ps[k - 1].pos)
    } else {
        interest_upto(ps, k - 1)
    }
}

pub open spec fn raw_interest(ps: Seq<PlayerState>) -> RectI {
    interest_upto(ps, ps.len() as int)
}

/// The buffer margin: a fixed percentage of the interest rectangle's largest
/// dimension.
pub open spec fn buffer_amount(ps: Seq<PlayerState>) -> int {
    mul_milli_spec(raw_interest(ps).max_extent_spec(), CAM_BUFFER as int)
}

pub open spec fn interest_min_x(ps: Seq<PlayerState>) -> int {
    raw_interest(ps).min_x - buffer_amount(ps)
}

pub open spec fn interest_min_y(ps: Seq<PlayerState>) -> int {
    raw_interest(ps).min_y - buffer_amount(ps)
}

pub open spec fn interest_max_x(ps: Seq<PlayerState>) -> int {
    raw_interest(ps).max_x + buffer_amount(ps)
}

pub open spec fn interest_max_y(ps: Seq<PlayerState>) -> int {
    raw_interest(ps).max_y + buffer_amount(ps)
}

/// Exponential smoothing of one coordinate toward its target.
pub open spec fn smoothed(c: int, t: int) -> int {
    div_milli_spec((CAM_ELASTICITY as int) * c + (1000 - CAM_ELASTICITY as int) * t)
}

pub open spec fn cam_target_x(ps: Seq<PlayerState>) -> int {
    half_spec(interest_min_x(ps) + interest_max_x(ps))
}

pub open spec fn cam_target_y(ps: Seq<PlayerState>) -> int {
    half_spec(interest_min_y(ps) + interest_max_y(ps))
}

/// The translated view covers the inflated interest region.
pub open spec fn view_covers(view: RectI, npx: int, npy: int, shrink: int, ps: Seq<PlayerState>) -> bool {
    &&& view.min_x + npx + shrink <= interest_min_x(ps)
    &&& view.min_y + npy + shrink <= interest_min_y(ps)
    &&& interest_max_x(ps) <= view.max_x + npx - shrink
    &&& interest_max_y(ps) <= view.max_y + npy - shrink
}

/// The zoom after one frame: out one step when the view no longer contains
/// the interest region, in one step when a shrunk view still contains it
/// (the hysteresis band), clamped to the fixed bounds either way.
pub open spec fn zoom_stepped(
    zoom: int,
    view: RectI,
    npx: int,
    npy: int,
    ps: Seq<PlayerState>,
) -> int {
    let z1 = if !view_covers(view, npx, npy, 0, ps) {
        mul_milli_spec(zoom, 1000 + CAM_ZOOM_SPEED as int)
    } else {
        zoom
    };
    let z2 = if view_covers(view, npx, npy, 200_000, ps) {
        mul_milli_spec(z1, 1000 - CAM_ZOOM_SPEED as int)
    } else {
        z1
    };
    clamp_spec(z2, CAM_ZOOM_MIN as int, CAM_ZOOM_MAX as int)
}

/// One presentation frame of the camera framer.  Whatever the players'
/// spread and the incoming zoom, the resulting zoom lies inside the fixed
/// zoom bounds.
pub fn update_camera(cam: &mut CameraState, view: RectI, players: &Vec<PlayerState>)
    requires
        old(cam).wf(),
        view.coords_in(VIEW_LIMIT as int),
        forall|k: int| 0 <= k < players@.len() ==> (#[trigger] players@[k]).wf(),
    ensures
        final(cam).wf(),
        final(cam).pos.x == smoothed(old(cam).pos.x as int, cam_target_x(players@)),
        final(cam).pos.y == smoothed(old(cam).pos.y as int, cam_target_y(players@)),
        final(cam).zoom == zoom_stepped(
            old(cam).zoom as int,
            view,
            final(cam).pos.x as int,
            final(cam).pos.y as int,
            players@,
        ),
        CAM_ZOOM_MIN <= final(cam).zoom <= CAM_ZOOM_MAX,
{
    let mut interest = RectI {
        min_x: -GLASS_RADIUS,
        min_y: GLASS_BOTTOM_Y,
        max_x: GLASS_RADIUS,
        max_y: GLASS_TOP_Y,
    };
    let mut i: usize = 0;
    while i < players.len()
        invariant
            i <= players@.len(),
            forall|k: int| 0 <= k < players@.len() ==> (#[trigger] players@[k]).wf(),
            interest == interest_upto(players@, i as int),
            interest.coords_in(POS_LIMIT as int),
            interest.min_x <= interest.max_x,
            interest.min_y <= interest.max_y,
        decreases players@.len() - i,
    {
        let p = players[i];
        if p.present && p.health > 0 {
            interest = RectI {
                min_x: if p.pos.x < interest.min_x {
                    p.pos.x
                } else {
                    interest.min_x
                },
                min_y: if p.pos.y < interest.min_y {
                    p.pos.y
                } else {
                    interest.min_y
                },
                max_x: if p.pos.x > interest.max_x {
                    p.pos.x
                } else {
                    interest.max_x
                },
                max_y: if p.pos.y > interest.max_y {
                    p.pos.y
                } else {
                    interest.max_y
                },
            };
        }
        i = i + 1;
    }
    proof {
        assert(interest == raw_interest(players@));
    }
    let extent = interest.max_extent();
    proof {
        lemma_mul_bound(extent as int, CAM_BUFFER as int, 2 * POS_LIMIT as int, CAM_BUFFER as int);
        lemma_div_milli_bound(extent * CAM_BUFFER, 300_000_000_000_000);
    }
    let amount = mul_milli(extent, CAM_BUFFER);
    let inflated = interest.inflate(amount);
    let tx = half(inflated.min_x + inflated.max_x);
    let ty = half(inflated.min_y + inflated.max_y);
    proof {
        lemma_mul_bound(CAM_ELASTICITY as int, old(cam).pos.x as int, 1000, CAM_POS_LIMIT as int);
        lemma_mul_bound(CAM_ELASTICITY as int, old(cam).pos.y as int, 1000, CAM_POS_LIMIT as int);
        lemma_mul_bound(1000 - CAM_ELASTICITY as int, tx as int, 1000, 1_400_000_000_000);
        lemma_mul_bound(1000 - CAM_ELASTICITY as int, ty as int, 1000, 1_400_000_000_000);
        lemma_div_milli_bound(
            CAM_ELASTICITY * cam.pos.x + (1000 - CAM_ELASTICITY) * tx,
            2_000_000_000_000_000,
        );
        lemma_div_milli_bound(
            CAM_ELASTICITY * cam.pos.y + (1000 - CAM_ELASTICITY) * ty,
            2_000_000_000_000_000,
        );
    }
    let npx = div_milli(CAM_ELASTICITY * cam.pos.x + (1000 - CAM_ELASTICITY) * tx);
    let npy = div_milli(CAM_ELASTICITY * cam.pos.y + (1000 - CAM_ELASTICITY) * ty);
    let cam_area = view.translate(Vec2I { x: npx, y: npy });
    let mut zoom: i64 = cam.zoom;
    proof {
        lemma_mul_bound(zoom as int, 1000 + CAM_ZOOM_SPEED as int, ZOOM_IN_LIMIT as int, 1010);
        lemma_div_milli_bound(zoom * (1000 + CAM_ZOOM_SPEED), 1_010_000_000_000_000_000);
    }
    if !cam_area.contains(inflated) {
        zoom = mul_milli(zoom, 1000 + CAM_ZOOM_SPEED);
    }
    let inner = cam_area.inflate(-200_000);
    proof {
        lemma_mul_bound(zoom as int, 1000 - CAM_ZOOM_SPEED as int, 1_010_000_000_000_000_000, 990);
        lemma_div_milli_bound(zoom * (1000 - CAM_ZOOM_SPEED), 999_900_000_000_000_000_000);
    }
    if inner.contains(inflated) {
        zoom = mul_milli(zoom, 1000 - CAM_ZOOM_SPEED);
    }
    let zoom = clamp_i64(zoom, CAM_ZOOM_MIN, CAM_ZOOM_MAX);
    cam.pos = Vec2I { x: npx, y: npy };
    cam.zoom = zoom;
}

} // verus!
