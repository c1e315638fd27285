//! Bubble lifecycle: thrust and drift emit short-lived particle bodies, and
//! every tick removes each bubble found outside the liquid region.  A
//! bubble's lifetime depends on region membership alone, never on a timer.

use vstd::prelude::*;

verus! {

use crate::environment::in_water;
use crate::environment::is_in_water;
use crate::environment::BUBBLE_EMISSION_SPEED;
use crate::environment::NB_TURBO_PARTICLE;
use crate::fixed::lemma_div_milli_bound;
use crate::fixed::lemma_mul_bound;
use crate::fixed::mul_milli_spec;
use crate::geometry::rotate;
use crate::geometry::rot_x_int;
use crate::geometry::rot_y_int;
use crate::geometry::Vec2I;
use crate::geometry::VEL_LIMIT;
use crate::player::DirInput;
use crate::player::PlayerState;
use crate::rng::draw_range;
use crate::rng::draw_ratio;
use crate::thrust::active_down;
use crate::thrust::active_leftup;
use crate::thrust::active_rightup;
use crate::thrust::thrust_effective;

/// A transient particle body.  A non-collidable bubble is purely visual; a
/// collidable one takes part in the rigid-body simulation.
#[derive(Clone, Copy, PartialEq, Eq, Structural, Debug)]
pub struct BubbleState {
    pub pos: Vec2I,
    pub vel: Vec2I,
    pub collidable: bool,
}

impl BubbleState {
    pub open spec fn wf(self) -> bool {
        self.vel.in_bounds(VEL_LIMIT as int)
    }
}

/// Creates a bubble body with velocity direction times speed; `collidable`
/// selects whether a collision shape is attached.
pub fn spawn_bubble(pos: Vec2I, direction: Vec2I, speed: i64, collidable: bool) -> (b: BubbleState)
    requires
        direction.in_bounds(2_000),
        0 <= speed <= 1_000_000,
    ensures
        b.pos == pos,
        b.vel.x == mul_milli_spec(direction.x as int, speed as int),
        b.vel.y == mul_milli_spec(direction.y as int, speed as int),
        b.collidable == collidable,
        b.wf(),
{
    proof {
        lemma_mul_bound(direction.x as int, speed as int, 2_000, 1_000_000);
        lemma_mul_bound(direction.y as int, speed as int, 2_000, 1_000_000);
        lemma_div_milli_bound(direction.x * speed, 2_000_000_000);
        lemma_div_milli_bound(direction.y * speed, 2_000_000_000);
    }
    BubbleState { pos, vel: direction.scaled(speed), collidable }
}

/// The speed a freshly emitted bubble is given: merged (non-collidable)
/// exhaust only drifts, collidable exhaust is expelled at emission speed.
pub open spec fn emission_speed(collidable: bool) -> int {
    if collidable {
        BUBBLE_EMISSION_SPEED as int
    } else {
        0int
    }
}

/// A bubble of a thrust burst: seated at a random lateral offset within
/// [lo, hi) at height oy in body space, expelled along the body's down axis
/// at the speed its collidability selects.
pub open spec fn burst_bubble_ok(p: PlayerState, lo: int, hi: int, oy: int, b: BubbleState) -> bool {
    &&& exists|ox: int|
        lo <= ox < hi && b.pos.x == p.pos.x + #[trigger] rot_x_int(p.rot, ox, oy) && b.pos.y
            == p.pos.y + rot_y_int(p.rot, ox, oy)
    &&& b.vel.x == mul_milli_spec(rot_x_int(p.rot, 0, -1000), emission_speed(b.collidable))
    &&& b.vel.y == mul_milli_spec(rot_y_int(p.rot, 0, -1000), emission_speed(b.collidable))
}

/// The ambient fizz bubble: a random offset across the tablet's face, no
/// collider, no emission speed.
pub open spec fn ambient_bubble_ok(p: PlayerState, b: BubbleState) -> bool {
    &&& exists|ox: int, oy: int|
        -60_000 <= ox < 60_000 && -12_000 <= oy < 12_000 && b.pos.x == p.pos.x
            + #[trigger] rot_x_int(p.rot, ox, oy) && b.pos.y == p.pos.y + rot_y_int(p.rot, ox, oy)
    &&& b.vel.x == 0
    &&& b.vel.y == 0
    &&& !b.collidable
}

/// How many bubbles one tick of emission produces for a player whose thrust
/// is effective: each lateral branch a burst short of the particle count,
/// the down branch a double burst, plus the one ambient bubble.
pub open spec fn emit_count(i: DirInput) -> int {
    (if active_rightup(i) {
        (NB_TURBO_PARTICLE - 1) as int
    } else {
        0int
    }) + (if active_leftup(i) {
        (NB_TURBO_PARTICLE - 1) as int
    } else {
        0int
    }) + (if active_down(i) {
        (2 * NB_TURBO_PARTICLE - 1) as int
    } else {
        0int
    }) + 1
}

/// Everything the emitter promises of its output for an effective player:
/// the burst segments in branch order, each bubble with its own
/// collidability draw, then the ambient bubble.
pub open spec fn emitted_ok(p: PlayerState, i: DirInput, s: Seq<BubbleState>) -> bool {
    let n1: int = if active_rightup(i) {
        (NB_TURBO_PARTICLE - 1) as int
    } else {
        0int
    };
    let n2: int = if active_leftup(i) {
        (NB_TURBO_PARTICLE - 1) as int
    } else {
        0int
    };
    let n3: int = if active_down(i) {
        (2 * NB_TURBO_PARTICLE - 1) as int
    } else {
        0int
    };
    &&& s.len() == n1 + n2 + n3 + 1
    &&& forall|k: int| 0 <= k < n1 ==> burst_bubble_ok(p, -60_000, 4_000, -13_000, #[trigger] s[k])
    &&& forall|k: int|
        n1 <= k < n1 + n2 ==> burst_bubble_ok(p, 4_000, 60_000, -13_000, #[trigger] s[k])
    &&& forall|k: int|
        n1 + n2 <= k < n1 + n2 + n3 ==> burst_bubble_ok(p, -60_000, 60_000, 13_000, #[trigger] s[k])
    &&& ambient_bubble_ok(p, s[n1 + n2 + n3])
}

/// One burst: `count` bubbles at random lateral offsets in [lo, hi) at body
/// height oy, expelled along the body's down axis, each with its own
/// collidability drawn at `chance` in a thousand.
fn emit_burst(
    p: &PlayerState,
    lo: i64,
    hi: i64,
    oy: i64,
    count: usize,
    chance: u32,
    out: &mut Vec<BubbleState>,
) -> (n0: usize)
    requires
        p.wf(),
        -60_000 <= lo < hi <= 60_000,
        -13_000 <= oy <= 13_000,
        0 < chance <= 1000,
        old(out)@.len() + count <= usize::MAX,
    ensures
        n0 == old(out)@.len(),
        final(out)@.len() == old(out)@.len() + count,
        forall|k: int| 0 <= k < old(out)@.len() ==> final(out)@[k] == old(out)@[k],
        forall|k: int|
            old(out)@.len() <= k < final(out)@.len() ==> burst_bubble_ok(
                *p,
                lo as int,
                hi as int,
                oy as int,
                #[trigger] final(out)@[k],
            ) && final(out)@[k].wf(),
{
    let n0 = out.len();
    let direction = rotate(p.rot, Vec2I { x: 0, y: -1000 });
    let mut j: usize = 0;
    while j < count
        invariant
            p.wf(),
            -60_000 <= lo < hi <= 60_000,
            -13_000 <= oy <= 13_000,
            0 < chance <= 1000,
            n0 + count <= usize::MAX,
            j <= count,
            out@.len() == n0 + j,
            direction.x == rot_x_int(p.rot, 0, -1000),
            direction.y == rot_y_int(p.rot, 0, -1000),
            direction.in_bounds(1_000),
            forall|k: int| 0 <= k < n0 ==> out@[k] == old(out)@[k],
            forall|k: int|
                n0 <= k < out@.len() ==> burst_bubble_ok(
                    *p,
                    lo as int,
                    hi as int,
                    oy as int,
                    #[trigger] out@[k],
                ) && out@[k].wf(),
        decreases count - j,
    {
        let collidable = draw_ratio(chance, 1000);
        let speed: i64 = if collidable {
            BUBBLE_EMISSION_SPEED
        } else {
            0
        };
        let ox = draw_range(lo, hi);
        let off = rotate(p.rot, Vec2I { x: ox, y: oy });
        let pos = p.pos.add(off);
        let b = spawn_bubble(pos, direction, speed, collidable);
        proof {
            assert(b.pos.x == p.pos.x + rot_x_int(p.rot, ox as int, oy as int));
        }
        out.push(b);
        j = j + 1;
    }
    n0
}

/// One tick of bubble emission for one player.  While the player is
/// submerged and alive, each held thrust direction emits a burst, every
/// bubble of it with its own collidability draw (about thirty percent for
/// the lateral branches, seventy for the down branch), and a single ambient
/// fizz bubble is always emitted; otherwise nothing is spawned.
pub fn bubble_emiter(p: &PlayerState, input: DirInput) -> (spawned: Vec<BubbleState>)
    requires
        p.wf(),
    ensures
        !thrust_effective(*p) ==> spawned@.len() == 0,
        thrust_effective(*p) ==> emitted_ok(*p, input, spawned@),
        forall|k: int| 0 <= k < spawned@.len() ==> (#[trigger] spawned@[k]).wf(),
{
    let mut spawned: Vec<BubbleState> = Vec::new();
    if !(is_in_water(p.pos) && p.health > 0) {
        return spawned;
    }
    if input.right || input.up {
        emit_burst(p, -60_000, 4_000, -13_000, NB_TURBO_PARTICLE - 1, 300, &mut spawned);
    }
    if input.left || input.up {
        emit_burst(p, 4_000, 60_000, -13_000, NB_TURBO_PARTICLE - 1, 300, &mut spawned);
    }
    if input.down {
        emit_burst(p, -60_000, 60_000, 13_000, 2 * NB_TURBO_PARTICLE - 1, 700, &mut spawned);
    }
    let ox = draw_range(-60_000, 60_000);
    let oy = draw_range(-12_000, 12_000);
    let off = rotate(p.rot, Vec2I { x: ox, y: oy });
    let pos = p.pos.add(off);
    let direction = rotate(p.rot, Vec2I { x: 0, y: -1000 });
    let b = spawn_bubble(pos, direction, 0, false);
    proof {
        assert(b.pos.x == p.pos.x + rot_x_int(p.rot, ox as int, oy as int));
    }
    spawned.push(b);
    spawned
}

/// The per-tick cull: every bubble whose position fails the liquid
/// membership test is removed this tick; every bubble still inside the
/// liquid is kept, in order.
pub fn try_kill_bubbles(bubbles: &mut Vec<BubbleState>)
    ensures
        final(bubbles)@ == old(bubbles)@.filter(|b: BubbleState| in_water(b.pos)),
        forall|k: int|
            0 <= k < final(bubbles)@.len() ==> in_water((#[trigger] final(bubbles)@[k]).pos),
        forall|k: int|
            0 <= k < old(bubbles)@.len() && in_water((#[trigger] old(bubbles)@[k]).pos)
                ==> final(bubbles)@.contains(old(bubbles)@[k]),
        forall|k: int|
            0 <= k < final(bubbles)@.len() ==> old(bubbles)@.contains(#[trigger] final(bubbles)@[k]),
{
    let mut kept: Vec<BubbleState> = Vec::new();
    let mut i: usize = 0;
    while i < bubbles.len()
        invariant
            i <= bubbles@.len(),
            bubbles@ == old(bubbles)@,
            kept@ == bubbles@.subrange(0, i as int).filter(|b: BubbleState| in_water(b.pos)),
            forall|k: int| 0 <= k < kept@.len() ==> bubbles@.contains(#[trigger] kept@[k]),
        decreases bubbles@.len() - i,
    {
        let b = bubbles[i];
        proof {
            reveal(Seq::filter);
            assert(bubbles@.subrange(0, i as int + 1).drop_last() =~= bubbles@.subrange(
                0,
                i as int,
            ));
            assert(bubbles@.subrange(0, i as int + 1).last() == b);
        }
        if is_in_water(b.pos) {
            kept.push(b);
            proof {
                assert(bubbles@[i as int] == b);
                assert(bubbles@.contains(b));
            }
        }
        i = i + 1;
    }
    proof {
        assert(bubbles@.subrange(0, bubbles@.len() as int) =~= bubbles@);
    }
    *bubbles = kept;
    proof {
        assert forall|k: int|
            0 <= k < bubbles@.len() implies in_water((#[trigger] bubbles@[k]).pos) by {
            old(bubbles)@.lemma_filter_pred(|b: BubbleState| in_water(b.pos), k);
        }
        assert forall|k: int|
            0 <= k < old(bubbles)@.len() && in_water(
                (#[trigger] old(bubbles)@[k]).pos,
            ) implies bubbles@.contains(old(bubbles)@[k]) by {
            old(bubbles)@.lemma_filter_contains(|b: BubbleState| in_water(b.pos), k);
        }
    }
}

} // verus!
