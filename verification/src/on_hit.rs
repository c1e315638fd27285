//! Collision damage.  The integrator answers "are these two bodies
//! overlapping this tick"; this module keeps the previous tick's answer and
//! fires damage only on the transition into overlap, so sustained contact
//! costs health exactly once.  Ramming damage is the other body's capped
//! speed; wall damage the player's own capped speed above a threshold.

use vstd::prelude::*;

verus! {

use crate::events::GameEvent;
use crate::fixed::lemma_sqrt_floor_exists;
use crate::fixed::min_spec;
use crate::geometry::speed_of;
use crate::geometry::speed_spec;
use crate::geometry::Vec2I;
use crate::environment::WALL_IMPACT_THRESHOLD;
use crate::player::same_but_health;
use crate::player::sub_health;
use crate::player::sub_health_spec;
use crate::player::PlayerState;

/// The arena has three static glass bodies: bottom, left and right.
pub const NUM_WALLS: usize = 3;

/// Ramming damage from the other body's speed: a tenth of it, capped.
pub open spec fn ram_damage_spec(speed: int) -> int {
    min_spec(speed / 10, 20_000)
}

/// Wall-impact damage from the player's own speed: a twentieth, capped.
pub open spec fn wall_damage_spec(speed: int) -> int {
    min_spec(speed / 20, 20_000)
}

/// Capped damage computed from any velocity is a bounded, nonnegative
/// amount.
pub proof fn lemma_damage_range(v: Vec2I)
    ensures
        0 <= speed_spec(v),
        0 <= ram_damage_spec(speed_spec(v)) <= 20_000,
        0 <= wall_damage_spec(speed_spec(v)) <= 20_000,
{
    assert(v.x * v.x + v.y * v.y >= 0) by (nonlinear_arith);
    lemma_sqrt_floor_exists(v.x * v.x + v.y * v.y);
    vstd::arithmetic::div_mod::lemma_div_pos_is_pos(speed_spec(v), 10);
    vstd::arithmetic::div_mod::lemma_div_pos_is_pos(speed_spec(v), 20);
}

/// Overlap of slot (i, j) in a row-major flag table of width m began this
/// tick: it holds now and did not hold last tick.
pub open spec fn pair_started(ov: Seq<bool>, prev: Seq<bool>, m: int, i: int, j: int) -> bool {
    ov[i * m + j] && !prev[i * m + j]
}

/// Ram damage player i takes from player j this tick.
pub open spec fn pp_term(
    ps: Seq<PlayerState>,
    ov: Seq<bool>,
    prev: Seq<bool>,
    n: int,
    i: int,
    j: int,
) -> int {
    if j != i && pair_started(ov, prev, n, i, j) {
        ram_damage_spec(speed_spec(ps[j].vel))
    } else {
        0int
    }
}

pub open spec fn pp_damage_upto(
    ps: Seq<PlayerState>,
    ov: Seq<bool>,
    prev: Seq<bool>,
    n: int,
    i: int,
    j: int,
) -> int
    decreases j,
{
    if j <= 0 {
        0int
    } else {
        pp_damage_upto(ps, ov, prev, n, i, j - 1) + pp_term(ps, ov, prev, n, i, j - 1)
    }
}

/// Total ram damage player i takes this tick: the sum over every other
/// player whose overlap with i began this tick of that player's capped
/// speed.
pub open spec fn pp_damage_total(
    ps: Seq<PlayerState>,
    ov: Seq<bool>,
    prev: Seq<bool>,
    n: int,
    i: int,
) -> int {
    pp_damage_upto(ps, ov, prev, n, i, n)
}

proof fn lemma_pp_damage_bound(
    ps: Seq<PlayerState>,
    ov: Seq<bool>,
    prev: Seq<bool>,
    n: int,
    i: int,
    j: int,
)
    requires
        0 <= j,
    ensures
        0 <= pp_damage_upto(ps, ov, prev, n, i, j) <= 20_000 * j,
    decreases j,
{
    if j > 0 {
        lemma_pp_damage_bound(ps, ov, prev, n, i, j - 1);
        lemma_damage_range(ps[j - 1].vel);
    }
}

/// Wall damage player i takes from wall w this tick: its own capped speed,
/// charged only above the impact threshold.
pub open spec fn wall_term(
    ps: Seq<PlayerState>,
    ov: Seq<bool>,
    prev: Seq<bool>,
    i: int,
    w: int,
) -> int {
    if pair_started(ov, prev, NUM_WALLS as int, i, w) && speed_spec(ps[i].vel)
        > WALL_IMPACT_THRESHOLD {
        wall_damage_spec(speed_spec(ps[i].vel))
    } else {
        0int
    }
}

pub open spec fn wall_damage_upto(
    ps: Seq<PlayerState>,
    ov: Seq<bool>,
    prev: Seq<bool>,
    i: int,
    w: int,
) -> int
    decreases w,
{
    if w <= 0 {
        0int
    } else {
        wall_damage_upto(ps, ov, prev, i, w - 1) + wall_term(ps, ov, prev, i, w - 1)
    }
}

/// Total wall damage player i takes this tick, over the three glass bodies.
pub open spec fn wall_damage_total(
    ps: Seq<PlayerState>,
    ov: Seq<bool>,
    prev: Seq<bool>,
    i: int,
) -> int {
    wall_damage_upto(ps, ov, prev, i, NUM_WALLS as int)
}

proof fn lemma_wall_damage_bound(
    ps: Seq<PlayerState>,
    ov: Seq<bool>,
    prev: Seq<bool>,
    i: int,
    w: int,
)
    requires
        0 <= w,
    ensures
        0 <= wall_damage_upto(ps, ov, prev, i, w) <= 20_000 * w,
    decreases w,
{
    if w > 0 {
        lemma_wall_damage_bound(ps, ov, prev, i, w - 1);
        lemma_damage_range(ps[i].vel);
    }
}

/// The wall damage sum reads nothing of a player but its velocity, so two
/// states that agree on it take the same damage.
pub proof fn lemma_wall_damage_same_vel(
    ps0: Seq<PlayerState>,
    ps1: Seq<PlayerState>,
    ov: Seq<bool>,
    prev: Seq<bool>,
    i: int,
    w: int,
)
    requires
        0 <= i < ps0.len(),
        ps0.len() == ps1.len(),
        ps1[i].vel == ps0[i].vel,
        0 <= w,
    ensures
        wall_damage_upto(ps0, ov, prev, i, w) == wall_damage_upto(ps1, ov, prev, i, w),
    decreases w,
{
    if w > 0 {
        lemma_wall_damage_same_vel(ps0, ps1, ov, prev, i, w - 1);
    }
}

/// A sound player-impact event: a pair whose overlap began this tick, with
/// both speeds taken at the moment of impact.
pub open spec fn pp_event_ok(
    ps: Seq<PlayerState>,
    ov: Seq<bool>,
    prev: Seq<bool>,
    n: int,
    e: GameEvent,
) -> bool {
    &&& e matches GameEvent::PlayerImpact { first, second, first_speed, second_speed }
    &&& 0 <= (e->PlayerImpact_first as int) < (e->PlayerImpact_second as int) < n
    &&& pair_started(ov, prev, n, e->PlayerImpact_first as int, e->PlayerImpact_second as int)
    &&& e->PlayerImpact_first_speed == speed_spec(ps[e->PlayerImpact_first as int].vel)
    &&& e->PlayerImpact_second_speed == speed_spec(ps[e->PlayerImpact_second as int].vel)
}

pub open spec fn is_pp_event_for(e: GameEvent, a: int, b: int) -> bool {
    e matches GameEvent::PlayerImpact { first, second, .. } && first == a && second == b
}

/// e1 reports a strictly earlier pair than e2, in lexicographic order.
pub open spec fn pp_pair_lt(e1: GameEvent, e2: GameEvent) -> bool {
    (e1->PlayerImpact_first as int) < (e2->PlayerImpact_first as int) || ((
    e1->PlayerImpact_first as int) == (e2->PlayerImpact_first as int) && (
    e1->PlayerImpact_second as int) < (e2->PlayerImpact_second as int))
}

/// The impact events report strictly increasing pairs, so no pair appears
/// twice: together with completeness, exactly one notification per
/// collision start.
pub open spec fn pp_events_ordered(s: Seq<GameEvent>) -> bool {
    forall|k1: int, k2: int|
        0 <= k1 < k2 < s.len() ==> pp_pair_lt(#[trigger] s[k1], #[trigger] s[k2])
}

/// The pair e reports is lexicographically before (a, b).
pub open spec fn pp_pair_before(e: GameEvent, a: int, b: int) -> bool {
    (e->PlayerImpact_first as int) < a || ((e->PlayerImpact_first as int) == a && (
    e->PlayerImpact_second as int) < b)
}

/// Whether the contact of player i with wall w began this tick, as a count.
pub open spec fn wall_start_bit(ov: Seq<bool>, prev: Seq<bool>, i: int, w: int) -> int {
    if pair_started(ov, prev, NUM_WALLS as int, i, w) {
        1int
    } else {
        0int
    }
}

pub open spec fn wall_starts_row(ov: Seq<bool>, prev: Seq<bool>, i: int, w: int) -> int
    decreases w,
{
    if w <= 0 {
        0int
    } else {
        wall_starts_row(ov, prev, i, w - 1) + wall_start_bit(ov, prev, i, w - 1)
    }
}

/// How many wall contacts began this tick among the first i players.
pub open spec fn wall_starts_upto(ov: Seq<bool>, prev: Seq<bool>, i: int) -> int
    decreases i,
{
    if i <= 0 {
        0int
    } else {
        wall_starts_upto(ov, prev, i - 1) + wall_starts_row(ov, prev, i - 1, NUM_WALLS as int)
    }
}

/// A sound wall-impact event: the player touched some wall anew this tick,
/// at the reported speed.
pub open spec fn wall_event_ok(
    ps: Seq<PlayerState>,
    ov: Seq<bool>,
    prev: Seq<bool>,
    n: int,
    e: GameEvent,
) -> bool {
    &&& e matches GameEvent::WallImpact { player, speed }
    &&& 0 <= (e->WallImpact_player as int) < n
    &&& exists|w: int|
        0 <= w < NUM_WALLS as int && pair_started(
            ov,
            prev,
            NUM_WALLS as int,
            e->WallImpact_player as int,
            w,
        )
    &&& e->WallImpact_speed == speed_spec(ps[e->WallImpact_player as int].vel)
}

pub open spec fn is_wall_event_for(e: GameEvent, a: int) -> bool {
    e matches GameEvent::WallImpact { player, .. } && player == a
}

/// Copies a flag table.
fn copy_flags(v: &Vec<bool>) -> (r: Vec<bool>)
    ensures
        r@ == v@,
{
    let mut r: Vec<bool> = Vec::new();
    let mut t: usize = 0;
    while t < v.len()
        invariant
            t <= v@.len(),
            r@ == v@.subrange(0, t as int),
        decreases v@.len() - t,
    {
        r.push(v[t]);
        t = t + 1;
    }
    proof {
        assert(v@.subrange(0, v@.len() as int) =~= v@);
    }
    r
}

/// The collision-damage subsystem: it remembers the previous tick's overlap
/// tables so that damage fires once per collision-start transition, never on
/// steady-state contact.
pub struct OnHitPlugin {
    /// Player count of the round.
    pub n: usize,
    /// Row-major n-by-n player-versus-player overlap of the previous tick.
    pub pp_prev: Vec<bool>,
    /// Row-major n-by-three player-versus-wall overlap of the previous tick.
    pub wall_prev: Vec<bool>,
}

impl OnHitPlugin {
    pub open spec fn wf(self) -> bool {
        &&& self.n <= 4
    &&& self.pp_prev@.len() == self.n * self.n
    &&& self.wall_prev@.len() == self.n * NUM_WALLS
    }

    /// A fresh tracker: nothing was overlapping before the round began.
    pub fn new(n: usize) -> (r: OnHitPlugin)
        requires
            n <= 4,
        ensures
            r.wf(),
            r.n == n,
            forall|k: int| 0 <= k < r.pp_prev@.len() ==> !(#[trigger] r.pp_prev@[k]),
            forall|k: int| 0 <= k < r.wall_prev@.len() ==> !(#[trigger] r.wall_prev@[k]),
    {
        proof {
            assert((n as int) * (n as int) <= 16) by (nonlinear_arith)
                requires
                    (n as int) <= 4,
            ;
        }
        let total = n * n;
        let mut pp_prev: Vec<bool> = Vec::new();
        let mut t: usize = 0;
        while t < total
            invariant
                total == n * n,
                t <= total,
                pp_prev@.len() == t,
                forall|k: int| 0 <= k < t ==> !(#[trigger] pp_prev@[k]),
            decreases total - t,
        {
            pp_prev.push(false);
            t = t + 1;
        }
        let wtotal = n * NUM_WALLS;
        let mut wall_prev: Vec<bool> = Vec::new();
        let mut t2: usize = 0;
        while t2 < wtotal
            invariant
                wtotal == n * NUM_WALLS,
                t2 <= wtotal,
                wall_prev@.len() == t2,
                forall|k: int| 0 <= k < t2 ==> !(#[trigger] wall_prev@[k]),
            decreases wtotal - t2,
        {
            wall_prev.push(false);
            t2 = t2 + 1;
        }
        OnHitPlugin { n, pp_prev, wall_prev }
    }

    /// One tick of player-versus-player collision damage: for every pair of
    /// players whose overlap began this tick, each loses the other's capped
    /// speed, one impact event is emitted, and the overlap table becomes the
    /// new previous tick.
    pub fn player_hit_player(
        &mut self,
        players: &mut Vec<PlayerState>,
        overlap: &Vec<bool>,
    ) -> (events: Vec<GameEvent>)
        requires
            old(self).wf(),
            old(players)@.len() == old(self).n,
            forall|k: int| 0 <= k < old(players)@.len() ==> (#[trigger] old(players)@[k]).wf(),
            overlap@.len() == old(self).n * old(self).n,
        ensures
            final(self).wf(),
            final(self).n == old(self).n,
            final(self).wall_prev == old(self).wall_prev,
            final(self).pp_prev@ == overlap@,
            final(players)@.len() == old(players)@.len(),
            forall|k: int| 0 <= k < final(players)@.len() ==> (#[trigger] final(players)@[k]).wf(),
            forall|i: int|
                0 <= i < final(players)@.len() ==> same_but_health(
                    #[trigger] final(players)@[i],
                    old(players)@[i],
                ),
            forall|i: int|
                0 <= i < final(players)@.len() ==> (#[trigger] final(players)@[i]).health
                    == sub_health_spec(
                    old(players)@[i].health as int,
                    pp_damage_total(
                        old(players)@,
                        overlap@,
                        old(self).pp_prev@,
                        old(self).n as int,
                        i,
                    ),
                ),
            forall|i: int|
                0 <= i < final(players)@.len() ==> (#[trigger] final(players)@[i]).health <= old(
                    players,
                )@[i].health,
            forall|k: int|
                0 <= k < events@.len() ==> pp_event_ok(
                    old(players)@,
                    overlap@,
                    old(self).pp_prev@,
                    old(self).n as int,
                    #[trigger] events@[k],
                ),
            forall|a: int, b: int|
                0 <= a < b < old(self).n as int && #[trigger] pair_started(
                    overlap@,
                    old(self).pp_prev@,
                    old(self).n as int,
                    a,
                    b,
                ) ==> exists|k: int|
                    0 <= k < events@.len() && is_pp_event_for(#[trigger] events@[k], a, b),
            pp_events_ordered(events@),
    {
        let n = self.n;
        let ghost ps0 = players@;
        let ghost prev0 = self.pp_prev@;
        let ghost nn = n as int;
        let mut events: Vec<GameEvent> = Vec::new();
        let mut i: usize = 0;
        while i < n
            invariant
                *self == *old(self),
                self.wf(),
                self.n == n,
                overlap@.len() == nn * nn,
                prev0 == self.pp_prev@,
                nn == n as int,
                i <= n,
                players@.len() == n,
                ps0 == old(players)@,
                ps0.len() == n,
                forall|k: int| 0 <= k < n ==> (#[trigger] ps0[k]).wf(),
                forall|k: int| i <= k < n ==> players@[k] == ps0[k],
                forall|k: int| 0 <= k < n ==> (#[trigger] players@[k]).wf(),
                forall|k: int|
                    0 <= k < i ==> same_but_health(#[trigger] players@[k], ps0[k]) && players@[k].health
                        == sub_health_spec(
                        ps0[k].health as int,
                        pp_damage_total(ps0, overlap@, prev0, nn, k),
                    ) && players@[k].health <= ps0[k].health,
                forall|k: int|
                    0 <= k < events@.len() ==> pp_event_ok(
                        ps0,
                        overlap@,
                        prev0,
                        nn,
                        #[trigger] events@[k],
                    ),
                forall|a: int, b: int|
                    0 <= a < b < nn && a < i as int && #[trigger] pair_started(
                        overlap@,
                        prev0,
                        nn,
                        a,
                        b,
                    ) ==> exists|k: int|
                        0 <= k < events@.len() && is_pp_event_for(#[trigger] events@[k], a, b),
                pp_events_ordered(events@),
                forall|k: int|
                    0 <= k < events@.len() ==> pp_pair_before(#[trigger] events@[k], i as int, 0),
            decreases n - i,
        {
            let mut dmg: i64 = 0;
            let mut j: usize = 0;
            while j < n
                invariant
                    *self == *old(self),
                    self.wf(),
                    self.n == n,
                    overlap@.len() == nn * nn,
                    prev0 == self.pp_prev@,
                    nn == n as int,
                    i < n,
                    j <= n,
                    players@.len() == n,
                    ps0.len() == n,
                    forall|k: int| 0 <= k < n ==> (#[trigger] ps0[k]).wf(),
                    forall|k: int| i <= k < n ==> players@[k] == ps0[k],
                    forall|k: int| 0 <= k < n ==> (#[trigger] players@[k]).wf(),
                    forall|k: int|
                        0 <= k < i ==> same_but_health(#[trigger] players@[k], ps0[k]) && players@[k].health
                            == sub_health_spec(
                            ps0[k].health as int,
                            pp_damage_total(ps0, overlap@, prev0, nn, k),
                        ) && players@[k].health <= ps0[k].health,
                    dmg == pp_damage_upto(ps0, overlap@, prev0, nn, i as int, j as int),
                    0 <= dmg <= 20_000 * j as int,
                    forall|k: int|
                        0 <= k < events@.len() ==> pp_event_ok(
                            ps0,
                            overlap@,
                            prev0,
                            nn,
                            #[trigger] events@[k],
                        ),
                    forall|a: int, b: int|
                        0 <= a < b < nn && (a < i as int || (a == i as int && b < j as int))
                            && #[trigger] pair_started(overlap@, prev0, nn, a, b) ==> exists|k: int|
                            0 <= k < events@.len() && is_pp_event_for(#[trigger] events@[k], a, b),
                    pp_events_ordered(events@),
                    forall|k: int|
                        0 <= k < events@.len() ==> pp_pair_before(
                            #[trigger] events@[k],
                            i as int,
                            j as int,
                        ),
                decreases n - j,
            {
                if j != i {
                    proof {
                        assert((i as int) * nn + (j as int) < nn * nn && nn * nn <= 16) by (nonlinear_arith)
                            requires
                                nn == n as int,
                                0 <= (i as int) < nn,
                                0 <= (j as int) < nn,
                                nn <= 4,
                        ;
                    }
                    let idx = i * n + j;
                    if overlap[idx] && !self.pp_prev[idx] {
                        let sp = speed_of(players[j].vel);
                        proof {
                            lemma_damage_range(ps0[j as int].vel);
                        }
                        let d = ((sp as u64) / 10) as i64;
                        let d = if d <= 20_000 {
                            d
                        } else {
                            20_000
                        };
                        dmg = dmg + d;
                        if i < j {
                            let sp_i = speed_of(players[i].vel);
                            proof {
                                assert(players@[i as int].vel == ps0[i as int].vel);
                            }
                            let ghost ev0 = events@;
                            events.push(
                                GameEvent::PlayerImpact {
                                    first: i,
                                    second: j,
                                    first_speed: sp_i,
                                    second_speed: sp,
                                },
                            );
                            proof {
                                assert forall|a: int, b: int|
                                    0 <= a < b < nn && (a < i as int || (a == i as int && b < j
                                        as int)) && #[trigger] pair_started(
                                        overlap@,
                                        prev0,
                                        nn,
                                        a,
                                        b,
                                    ) implies exists|k: int|
                                    0 <= k < events@.len() && is_pp_event_for(
                                        #[trigger] events@[k],
                                        a,
                                        b,
                                    ) by {
                                    let k0 = choose|k: int|
                                        0 <= k < ev0.len() && is_pp_event_for(
                                            #[trigger] ev0[k],
                                            a,
                                            b,
                                        );
                                    assert(events@[k0] == ev0[k0]);
                                    assert(is_pp_event_for(events@[k0], a, b));
                                }
                                assert(pair_started(overlap@, prev0, nn, i as int, j as int));
                                assert(pp_event_ok(
                                    ps0,
                                    overlap@,
                                    prev0,
                                    nn,
                                    events@[events@.len() - 1],
                                ));
                                assert(is_pp_event_for(
                                    events@[events@.len() - 1],
                                    i as int,
                                    j as int,
                                ));
                                assert forall|k1: int, k2: int|
                                    0 <= k1 < k2 < events@.len() implies pp_pair_lt(
                                    #[trigger] events@[k1],
                                    #[trigger] events@[k2],
                                ) by {
                                    if k2 < events@.len() - 1 {
                                        assert(events@[k1] == ev0[k1] && events@[k2] == ev0[k2]);
                                    } else {
                                        assert(events@[k1] == ev0[k1]);
                                        assert(pp_pair_before(ev0[k1], i as int, j as int));
                                    }
                                }
                            }
                        }
                    }
                }
                j = j + 1;
            }
            proof {
                lemma_pp_damage_bound(ps0, overlap@, prev0, nn, i as int, nn);
            }
            let mut pi = players[i];
            pi.health = sub_health(pi.health, dmg);
            players.set(i, pi);
            i = i + 1;
        }
        self.pp_prev = copy_flags(overlap);
        events
    }

    /// One tick of player-versus-wall collision damage: for every wall a
    /// player touches anew this tick, a wall-impact event is raised, and the
    /// player's own capped speed is charged when it exceeds the threshold.
    pub fn player_hit_wall(
        &mut self,
        players: &mut Vec<PlayerState>,
        overlap: &Vec<bool>,
    ) -> (events: Vec<GameEvent>)
        requires
            old(self).wf(),
            old(players)@.len() == old(self).n,
            forall|k: int| 0 <= k < old(players)@.len() ==> (#[trigger] old(players)@[k]).wf(),
            overlap@.len() == old(self).n * NUM_WALLS,
        ensures
            final(self).wf(),
            final(self).n == old(self).n,
            final(self).pp_prev == old(self).pp_prev,
            final(self).wall_prev@ == overlap@,
            final(players)@.len() == old(players)@.len(),
            forall|k: int| 0 <= k < final(players)@.len() ==> (#[trigger] final(players)@[k]).wf(),
            forall|i: int|
                0 <= i < final(players)@.len() ==> same_but_health(
                    #[trigger] final(players)@[i],
                    old(players)@[i],
                ),
            forall|i: int|
                0 <= i < final(players)@.len() ==> (#[trigger] final(players)@[i]).health
                    == sub_health_spec(
                    old(players)@[i].health as int,
                    wall_damage_total(old(players)@, overlap@, old(self).wall_prev@, i),
                ),
            forall|i: int|
                0 <= i < final(players)@.len() ==> (#[trigger] final(players)@[i]).health <= old(
                    players,
                )@[i].health,
            forall|k: int|
                0 <= k < events@.len() ==> wall_event_ok(
                    old(players)@,
                    overlap@,
                    old(self).wall_prev@,
                    old(self).n as int,
                    #[trigger] events@[k],
                ),
            forall|a: int, w: int|
                0 <= a < old(self).n as int && 0 <= w < NUM_WALLS as int && #[trigger] pair_started(
                    overlap@,
                    old(self).wall_prev@,
                    NUM_WALLS as int,
                    a,
                    w,
                ) ==> exists|k: int|
                    0 <= k < events@.len() && is_wall_event_for(#[trigger] events@[k], a),
            events@.len() == wall_starts_upto(overlap@, old(self).wall_prev@, old(self).n as int),
    {
        let n = self.n;
        let ghost ps0 = players@;
        let ghost prev0 = self.wall_prev@;
        let mut events: Vec<GameEvent> = Vec::new();
        let mut i: usize = 0;
        while i < n
            invariant
                *self == *old(self),
                self.wf(),
                self.n == n,
                overlap@.len() == n * NUM_WALLS,
                prev0 == self.wall_prev@,
                i <= n,
                players@.len() == n,
                ps0 == old(players)@,
                ps0.len() == n,
                forall|k: int| 0 <= k < n ==> (#[trigger] ps0[k]).wf(),
                forall|k: int| i <= k < n ==> players@[k] == ps0[k],
                forall|k: int| 0 <= k < n ==> (#[trigger] players@[k]).wf(),
                forall|k: int|
                    0 <= k < i ==> same_but_health(#[trigger] players@[k], ps0[k]) && players@[k].health
                        == sub_health_spec(
                        ps0[k].health as int,
                        wall_damage_total(ps0, overlap@, prev0, k),
                    ) && players@[k].health <= ps0[k].health,
                forall|k: int|
                    0 <= k < events@.len() ==> wall_event_ok(
                        ps0,
                        overlap@,
                        prev0,
                        n as int,
                        #[trigger] events@[k],
                    ),
                forall|a: int, w: int|
                    0 <= a < i as int && 0 <= w < NUM_WALLS as int && #[trigger] pair_started(
                        overlap@,
                        prev0,
                        NUM_WALLS as int,
                        a,
                        w,
                    ) ==> exists|k: int|
                        0 <= k < events@.len() && is_wall_event_for(#[trigger] events@[k], a),
                events@.len() == wall_starts_upto(overlap@, prev0, i as int),
            decreases n - i,
        {
            let sp = speed_of(players[i].vel);
            proof {
                lemma_damage_range(ps0[i as int].vel);
            }
            let mut dmg: i64 = 0;
            let mut w: usize = 0;
            while w < NUM_WALLS
                invariant
                    *self == *old(self),
                    self.wf(),
                    self.n == n,
                    overlap@.len() == n * NUM_WALLS,
                    prev0 == self.wall_prev@,
                    i < n,
                    w <= NUM_WALLS,
                    players@.len() == n,
                    ps0.len() == n,
                    forall|k: int| 0 <= k < n ==> (#[trigger] ps0[k]).wf(),
                    forall|k: int| i <= k < n ==> players@[k] == ps0[k],
                    forall|k: int| 0 <= k < n ==> (#[trigger] players@[k]).wf(),
                    forall|k: int|
                        0 <= k < i ==> same_but_health(#[trigger] players@[k], ps0[k]) && players@[k].health
                            == sub_health_spec(
                            ps0[k].health as int,
                            wall_damage_total(ps0, overlap@, prev0, k),
                        ) && players@[k].health <= ps0[k].health,
                    sp == speed_spec(ps0[i as int].vel),
                    0 <= sp,
                    dmg == wall_damage_upto(ps0, overlap@, prev0, i as int, w as int),
                    0 <= dmg <= 20_000 * w as int,
                    events@.len() == wall_starts_upto(overlap@, prev0, i as int)
                        + wall_starts_row(overlap@, prev0, i as int, w as int),
                    forall|k: int|
                        0 <= k < events@.len() ==> wall_event_ok(
                            ps0,
                            overlap@,
                            prev0,
                            n as int,
                            #[trigger] events@[k],
                        ),
                    forall|a: int, ww: int|
                        0 <= a < n as int && 0 <= ww < NUM_WALLS as int && (a < i as int || (a == i
                            as int && ww < w as int)) && #[trigger] pair_started(
                            overlap@,
                            prev0,
                            NUM_WALLS as int,
                            a,
                            ww,
                        ) ==> exists|k: int|
                            0 <= k < events@.len() && is_wall_event_for(#[trigger] events@[k], a),
                decreases NUM_WALLS - w,
            {
                proof {
                    assert((i as int) * 3 + (w as int) < (n as int) * 3 && (n as int) * 3 <= 12) by (nonlinear_arith)
                        requires
                            0 <= (i as int) < (n as int),
                            0 <= (w as int) < 3,
                            (n as int) <= 4,
                    ;
                }
                let idx = i * NUM_WALLS + w;
                if overlap[idx] && !self.wall_prev[idx] {
                    let ghost ev0 = events@;
                    events.push(GameEvent::WallImpact { player: i, speed: sp });
                    proof {
                        assert forall|a: int, ww: int|
                            0 <= a < n as int && 0 <= ww < NUM_WALLS as int && (a < i as int || (a
                                == i as int && ww < w as int)) && #[trigger] pair_started(
                                overlap@,
                                prev0,
                                NUM_WALLS as int,
                                a,
                                ww,
                            ) implies exists|k: int|
                            0 <= k < events@.len() && is_wall_event_for(
                                #[trigger] events@[k],
                                a,
                            ) by {
                            let k0 = choose|k: int|
                                0 <= k < ev0.len() && is_wall_event_for(#[trigger] ev0[k], a);
                            assert(events@[k0] == ev0[k0]);
                            assert(is_wall_event_for(events@[k0], a));
                        }
                        assert(pair_started(overlap@, prev0, NUM_WALLS as int, i as int, w as int));
                        assert(wall_event_ok(
                            ps0,
                            overlap@,
                            prev0,
                            n as int,
                            events@[events@.len() - 1],
                        ));
                        assert(is_wall_event_for(events@[events@.len() - 1], i as int));
                    }
                    if sp > WALL_IMPACT_THRESHOLD {
                        let d = ((sp as u64) / 20) as i64;
                        let d = if d <= 20_000 {
                            d
                        } else {
                            20_000
                        };
                        dmg = dmg + d;
                    }
                }
                w = w + 1;
            }
            proof {
                lemma_wall_damage_bound(ps0, overlap@, prev0, i as int, NUM_WALLS as int);
                assert(wall_starts_upto(overlap@, prev0, i as int + 1) == wall_starts_upto(
                    overlap@,
                    prev0,
                    i as int,
                ) + wall_starts_row(overlap@, prev0, i as int, NUM_WALLS as int));
            }
            let mut pi = players[i];
            pi.health = sub_health(pi.health, dmg);
            players.set(i, pi);
            i = i + 1;
        }
        self.wall_prev = copy_flags(overlap);
        events
    }
}

} // verus!
