//! Environmental damage and depleted-player decay: the water tick, the
//! zone-kill below the arena floor, and the multi-tick dissolve of a player
//! whose health has run out.

use vstd::prelude::*;

verus! {

use crate::environment::in_water;
use crate::environment::is_in_water;
use crate::environment::DECAY_DENSITY;
use crate::environment::DECAY_SCALE_STEP;
use crate::environment::DECAY_VEL_KEEP;
use crate::environment::DESPAWN_SCALE;
use crate::environment::GLASS_BOTTOM_Y;
use crate::environment::GLOBAL_DAMAGE_SCALE;
use crate::environment::WATER_TICK_DAMAGE;
use crate::events::GameEvent;
use crate::fixed::max_spec;
use crate::fixed::min_spec;
use crate::fixed::mul_milli_spec;
use crate::forces::damp_component;
use crate::geometry::Vec2I;
use crate::player::same_but_health;
use crate::player::sub_health;
use crate::player::sub_health_spec;
use crate::player::PlayerState;
use crate::rng::draw_range;

/// Health lost per tick merely for being in the liquid: the water tick
/// damage under the global damage scale.
pub open spec fn water_damage() -> int {
    (GLOBAL_DAMAGE_SCALE as int) * (WATER_TICK_DAMAGE as int) / 1000
}

/// The water tick: every submerged body with a health value loses a fixed
/// small amount, dead or alive; everyone else is untouched.
pub fn update_health(players: &mut Vec<PlayerState>)
    requires
        forall|k: int| 0 <= k < old(players)@.len() ==> (#[trigger] old(players)@[k]).wf(),
    ensures
        final(players)@.len() == old(players)@.len(),
        forall|k: int| 0 <= k < final(players)@.len() ==> (#[trigger] final(players)@[k]).wf(),
        forall|i: int|
            0 <= i < final(players)@.len() ==> same_but_health(
                #[trigger] final(players)@[i],
                old(players)@[i],
            ),
        forall|i: int|
            0 <= i < final(players)@.len() ==> (#[trigger] final(players)@[i]).health == (
            if in_water(old(players)@[i].pos) {
                sub_health_spec(old(players)@[i].health as int, water_damage())
            } else {
                old(players)@[i].health as int
            }),
        forall|i: int|
            0 <= i < final(players)@.len() ==> (#[trigger] final(players)@[i]).health <= old(
                players,
            )@[i].health,
{
    let ghost ps0 = players@;
    proof {
        assert(water_damage() == 100);
    }
    let mut i: usize = 0;
    while i < players.len()
        invariant
            i <= players@.len(),
            players@.len() == ps0.len(),
            ps0 == old(players)@,
            forall|k: int| 0 <= k < ps0.len() ==> (#[trigger] ps0[k]).wf(),
            forall|k: int| i <= k < players@.len() ==> players@[k] == ps0[k],
            forall|k: int| 0 <= k < players@.len() ==> (#[trigger] players@[k]).wf(),
            forall|k: int|
                0 <= k < i ==> same_but_health(#[trigger] players@[k], ps0[k]) && players@[k].health
                    == (if in_water(ps0[k].pos) {
                    sub_health_spec(ps0[k].health as int, water_damage())
                } else {
                    ps0[k].health as int
                }) && players@[k].health <= ps0[k].health,
        decreases players@.len() - i,
    {
        if is_in_water(players[i].pos) {
            let mut pi = players[i];
            pi.health = sub_health(pi.health, 100);
            players.set(i, pi);
        }
        i = i + 1;
    }
}

/// The health the zone-kill leaves: zero for a living player, and a health
/// already below zero stays where it is, since health never regenerates.
pub open spec fn zone_killed_health(h: int) -> int {
    min_spec(h, 0)
}

/// The zone-kill: any player below the arena floor has health cut to zero
/// at once; falling out of the world is an instant kill, not a damage tick.
/// The cut is a clamp, never an increase: a dissolving player's negative
/// health stays put.
pub fn try_kill_by_zone(players: &mut Vec<PlayerState>)
    requires
        forall|k: int| 0 <= k < old(players)@.len() ==> (#[trigger] old(players)@[k]).wf(),
    ensures
        final(players)@.len() == old(players)@.len(),
        forall|k: int| 0 <= k < final(players)@.len() ==> (#[trigger] final(players)@[k]).wf(),
        forall|i: int|
            0 <= i < final(players)@.len() ==> same_but_health(
                #[trigger] final(players)@[i],
                old(players)@[i],
            ),
        forall|i: int|
            0 <= i < final(players)@.len() ==> (#[trigger] final(players)@[i]).health == (
            if old(players)@[i].pos.y < GLASS_BOTTOM_Y {
                zone_killed_health(old(players)@[i].health as int)
            } else {
                old(players)@[i].health as int
            }),
        forall|i: int|
            0 <= i < final(players)@.len() ==> (#[trigger] final(players)@[i]).health <= old(
                players,
            )@[i].health,
{
    let ghost ps0 = players@;
    let mut i: usize = 0;
    while i < players.len()
        invariant
            i <= players@.len(),
            players@.len() == ps0.len(),
            ps0 == old(players)@,
            forall|k: int| 0 <= k < ps0.len() ==> (#[trigger] ps0[k]).wf(),
            forall|k: int| i <= k < players@.len() ==> players@[k] == ps0[k],
            forall|k: int| 0 <= k < players@.len() ==> (#[trigger] players@[k]).wf(),
            forall|k: int|
                0 <= k < i ==> same_but_health(#[trigger] players@[k], ps0[k]) && players@[k].health
                    == (if ps0[k].pos.y < GLASS_BOTTOM_Y {
                    zone_killed_health(ps0[k].health as int)
                } else {
                    ps0[k].health as int
                }) && players@[k].health <= ps0[k].health,
        decreases players@.len() - i,
    {
        if players[i].pos.y < GLASS_BOTTOM_Y && players[i].health > 0 {
            let mut pi = players[i];
            pi.health = 0;
            players.set(i, pi);
        }
        i = i + 1;
    }
}

/// A player is dissolving: still present but out of health.
pub open spec fn decaying(p: PlayerState) -> bool {
    p.present && p.health <= 0
}

/// The scale after one tick of dissolving, clamped at zero.
pub open spec fn decayed_scale(p: PlayerState) -> int {
    max_spec(p.scale - DECAY_SCALE_STEP, 0)
}

/// What one tick of the dissolve leaves of a decaying player: shrunk scale,
/// damped velocity, lightened density, and the body destroyed once the
/// scale falls below the despawn threshold.
pub open spec fn decay_step_ok(p: PlayerState, q: PlayerState) -> bool {
    &&& q.pos == p.pos
    &&& q.ang_vel == p.ang_vel
    &&& q.rot == p.rot
    &&& q.health == p.health
    &&& q.scale == decayed_scale(p)
    &&& q.vel.x == mul_milli_spec(p.vel.x as int, DECAY_VEL_KEEP as int)
    &&& q.vel.y == mul_milli_spec(p.vel.y as int, DECAY_VEL_KEEP as int)
    &&& q.density == DECAY_DENSITY
    &&& q.present == (decayed_scale(p) >= DESPAWN_SCALE)
}

/// A sound depleted-player event: the named player began dissolving this
/// tick, and the farewell index points into the fixed message set.
pub open spec fn depleted_event_ok(ps: Seq<PlayerState>, e: GameEvent) -> bool {
    &&& e matches GameEvent::PlayerDepleted { player, farewell }
    &&& 0 <= (e->PlayerDepleted_player as int) < ps.len()
    &&& decaying(ps[e->PlayerDepleted_player as int])
    &&& ps[e->PlayerDepleted_player as int].scale == 1000
    &&& (e->PlayerDepleted_farewell as int) < 3
}

pub open spec fn is_depleted_event_for(e: GameEvent, a: int) -> bool {
    e matches GameEvent::PlayerDepleted { player, .. } && player == a
}

/// The farewell events report strictly increasing player indices, so no
/// player appears twice: together with completeness, exactly one farewell
/// per player on the first dissolving tick.
pub open spec fn depleted_events_ordered(s: Seq<GameEvent>) -> bool {
    forall|k1: int, k2: int|
        0 <= k1 < k2 < s.len() ==> ((#[trigger] s[k1])->PlayerDepleted_player as int) < ((
        #[trigger] s[k2])->PlayerDepleted_player as int)
}

/// Depleted-player decay.  Once health has run out the body does not vanish:
/// each tick it shrinks by a fixed step, its velocity is damped, its density
/// reduced, and it is destroyed when the scale falls below the threshold.
/// On the first dissolving tick (full scale still intact) one parting
/// message is drawn at random and reported as an event.
pub fn try_kill_by_health(players: &mut Vec<PlayerState>) -> (events: Vec<GameEvent>)
    requires
        forall|k: int| 0 <= k < old(players)@.len() ==> (#[trigger] old(players)@[k]).wf(),
    ensures
        final(players)@.len() == old(players)@.len(),
        forall|k: int| 0 <= k < final(players)@.len() ==> (#[trigger] final(players)@[k]).wf(),
        forall|i: int|
            0 <= i < final(players)@.len() && decaying(old(players)@[i]) ==> decay_step_ok(
                old(players)@[i],
                #[trigger] final(players)@[i],
            ),
        forall|i: int|
            0 <= i < final(players)@.len() && !decaying(old(players)@[i])
                ==> #[trigger] final(players)@[i] == old(players)@[i],
        forall|i: int|
            0 <= i < final(players)@.len() ==> (#[trigger] final(players)@[i]).health == old(
                players,
            )@[i].health,
        forall|k: int|
            0 <= k < events@.len() ==> depleted_event_ok(old(players)@, #[trigger] events@[k]),
        forall|i: int|
            0 <= i < old(players)@.len() && #[trigger] decaying(old(players)@[i]) && old(
                players,
            )@[i].scale == 1000 ==> exists|k: int|
                0 <= k < events@.len() && is_depleted_event_for(#[trigger] events@[k], i),
        depleted_events_ordered(events@),
{
    let ghost ps0 = players@;
    let mut events: Vec<GameEvent> = Vec::new();
    let mut i: usize = 0;
    while i < players.len()
        invariant
            i <= players@.len(),
            players@.len() == ps0.len(),
            ps0 == old(players)@,
            forall|k: int| 0 <= k < ps0.len() ==> (#[trigger] ps0[k]).wf(),
            forall|k: int| i <= k < players@.len() ==> players@[k] == ps0[k],
            forall|k: int| 0 <= k < players@.len() ==> (#[trigger] players@[k]).wf(),
            forall|k: int|
                0 <= k < i && decaying(ps0[k]) ==> decay_step_ok(ps0[k], #[trigger] players@[k]),
            forall|k: int| 0 <= k < i && !decaying(ps0[k]) ==> #[trigger] players@[k] == ps0[k],
            forall|k: int| 0 <= k < players@.len() ==> (#[trigger] players@[k]).health == ps0[k].health,
            forall|k: int|
                0 <= k < events@.len() ==> depleted_event_ok(ps0, #[trigger] events@[k]),
            forall|k: int|
                0 <= k < i && #[trigger] decaying(ps0[k]) && ps0[k].scale == 1000 ==> exists|e: int|
                    0 <= e < events@.len() && is_depleted_event_for(#[trigger] events@[e], k),
            depleted_events_ordered(events@),
            forall|k: int|
                0 <= k < events@.len() ==> ((#[trigger] events@[k])->PlayerDepleted_player as int)
                    < i as int,
        decreases players@.len() - i,
    {
        let p = players[i];
        if p.present && p.health <= 0 {
            if p.scale == 1000 {
                let farewell = draw_range(0, 3);
                let ghost ev0 = events@;
                events.push(GameEvent::PlayerDepleted { player: i, farewell: farewell as u8 });
                proof {
                    assert forall|k: int|
                        0 <= k < i as int && #[trigger] decaying(ps0[k]) && ps0[k].scale
                            == 1000 implies exists|e: int|
                        0 <= e < events@.len() && is_depleted_event_for(
                            #[trigger] events@[e],
                            k,
                        ) by {
                        let e0 = choose|e: int|
                            0 <= e < ev0.len() && is_depleted_event_for(#[trigger] ev0[e], k);
                        assert(events@[e0] == ev0[e0]);
                        assert(is_depleted_event_for(events@[e0], k));
                    }
                    assert(is_depleted_event_for(events@[events@.len() - 1], i as int));
                    assert forall|k1: int, k2: int|
                        0 <= k1 < k2 < events@.len() implies ((
                    #[trigger] events@[k1])->PlayerDepleted_player as int) < ((
                    #[trigger] events@[k2])->PlayerDepleted_player as int) by {
                        if k2 < events@.len() - 1 {
                            assert(events@[k1] == ev0[k1] && events@[k2] == ev0[k2]);
                        } else {
                            assert(events@[k1] == ev0[k1]);
                        }
                    }
                }
            }
            let mut q = p;
            let s2 = if p.scale - DECAY_SCALE_STEP >= 0 {
                p.scale - DECAY_SCALE_STEP
            } else {
                0
            };
            q.scale = s2;
            q.vel = Vec2I {
                x: damp_component(p.vel.x, DECAY_VEL_KEEP),
                y: damp_component(p.vel.y, DECAY_VEL_KEEP),
            };
            q.density = DECAY_DENSITY;
            q.present = s2 >= DESPAWN_SCALE;
            players.set(i, q);
        }
        i = i + 1;
    }
    events
}

} // verus!
