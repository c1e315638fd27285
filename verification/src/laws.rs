//! Round-level laws: properties that span several ticks or several
//! functions, proved from the contracts the modules state.

use vstd::prelude::*;

verus! {

use crate::on_hit::ram_damage_spec;
use crate::player::alive_upto;
use crate::player::PlayerState;
use crate::round::countdown_step_spec;
use crate::round::end_condition;
use crate::round::Phase;

/// A trace of one player's health, sampled once per tick.
pub open spec fn health_trace_ok(h: Seq<int>) -> bool {
    forall|k: int| 0 < k < h.len() ==> #[trigger] h[k] <= h[k - 1]
}

/// Health is monotonically non-increasing across a round: whenever every
/// tick leaves a player's health no larger than before (what the per-tick
/// functions ensure), the health at any later tick is no larger than at any
/// earlier one.
pub proof fn lemma_health_monotonic(h: Seq<int>, a: int, b: int)
    requires
        health_trace_ok(h),
        0 <= a <= b < h.len(),
    ensures
        h[b] <= h[a],
    decreases b - a,
{
    if a < b {
        lemma_health_monotonic(h, a, b - 1);
    }
}

/// With a single player, the end condition holds exactly when that player's
/// health has run out: the round moves to its ending phase then, and not
/// before.
pub proof fn lemma_solo_end_condition(ps: Seq<PlayerState>)
    requires
        ps.len() == 1,
    ensures
        end_condition(1, crate::player::alive_count(ps)) <==> ps[0].health <= 0,
{
    assert(alive_upto(ps, 1) == alive_upto(ps, 0) + if ps[0].health > 0 {
        1int
    } else {
        0int
    });
}

/// With three players, the end condition holds exactly when at most one of
/// them still has positive health.
pub proof fn lemma_trio_end_condition(ps: Seq<PlayerState>)
    requires
        ps.len() == 3,
    ensures
        end_condition(3, crate::player::alive_count(ps)) <==> alive_upto(ps, 3) <= 1,
{
}

/// The phase after k countdown ticks from an ending phase.
pub open spec fn countdown_iter(phase: Phase, k: int) -> Phase
    decreases k,
{
    if k <= 0 {
        phase
    } else {
        countdown_step_spec(countdown_iter(phase, k - 1))
    }
}

/// The round-end countdown runs out exactly on time: starting the ending
/// phase at count c, the round has exited after exactly c ticks, and on
/// every earlier tick it is still ending, with the count decremented by
/// exactly one per tick and never negative.
pub proof fn lemma_countdown_exact(c: u32, k: int)
    requires
        1 <= c,
        0 <= k <= c,
    ensures
        k < c ==> countdown_iter(Phase::Ending { countdown: c }, k) == (Phase::Ending {
            countdown: (c - k) as u32,
        }),
        k == c ==> countdown_iter(Phase::Ending { countdown: c }, k) == Phase::Exited,
    decreases k,
{
    if k > 0 {
        lemma_countdown_exact(c, k - 1);
    }
}

/// Once exited, the countdown never resurrects the round.
pub proof fn lemma_exited_stays(k: int)
    requires
        0 <= k,
    ensures
        countdown_iter(Phase::Exited, k) == Phase::Exited,
    decreases k,
{
    if k > 0 {
        lemma_exited_stays(k - 1);
    }
}

/// A tick-by-tick overlap history of one pair of bodies, and the ticks on
/// which the collision tracker fires damage: exactly those where overlap
/// holds but did not hold the tick before.
pub open spec fn hits_in_history(hist: Seq<bool>, k: int) -> int
    decreases k,
{
    if k <= 0 {
        0int
    } else {
        hits_in_history(hist, k - 1) + if hist[k - 1] && !(k - 1 > 0 && hist[k - 2]) {
            1int
        } else {
            0int
        }
    }
}

proof fn lemma_sustained_prefix(hist: Seq<bool>, k: int)
    requires
        forall|t: int| 0 <= t < hist.len() ==> #[trigger] hist[t],
        1 <= k <= hist.len(),
    ensures
        hits_in_history(hist, k) == 1,
    decreases k,
{
    if k > 1 {
        lemma_sustained_prefix(hist, k - 1);
        assert(hist[k - 1] && hist[k - 2]);
    } else {
        assert(hits_in_history(hist, 0) == 0);
        assert(hist[0]);
    }
}

/// Collision damage fires once per collision-start transition: across a
/// sustained overlap of any length, the tracker fires on the first tick and
/// never again, so the pair's health is charged exactly once.
pub proof fn lemma_collision_fires_once(hist: Seq<bool>)
    requires
        hist.len() >= 1,
        forall|t: int| 0 <= t < hist.len() ==> #[trigger] hist[t],
    ensures
        hits_in_history(hist, hist.len() as int) == 1,
{
    lemma_sustained_prefix(hist, hist.len() as int);
}

/// The capped ramming damage never exceeds its cap, whatever the speed.
pub proof fn lemma_ram_damage_capped(speed: int)
    ensures
        ram_damage_spec(speed) <= 20_000,
{
}

} // verus!
