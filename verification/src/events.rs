//! Semantic events the core emits for its collaborators: fire-and-forget
//! notifications with a magnitude payload, routed to per-kind audio
//! channels.  The core never manages playback; it only reports what
//! happened and how hard.

use vstd::prelude::*;

verus! {

use crate::environment::in_water;
use crate::environment::is_in_water;
use crate::player::PlayerState;

/// Audio channel tag for glass (wall) impacts.
#[derive(Clone, Copy, Default, Debug)]
pub struct GlassChannel;

/// Audio channel tag for player-versus-player impacts.
#[derive(Clone, Copy, Default, Debug)]
pub struct PlayerChannel;

/// One notification out of the core.  Speeds are milli magnitudes at the
/// moment of the event; `farewell` indexes the fixed set of parting messages
/// a depleted player draws from; a `SubmergedLoop` event turns a player's
/// ambient fizz loop on or off on the sink's per-player channel.
#[derive(Clone, Copy, PartialEq, Eq, Structural, Debug)]
pub enum GameEvent {
    WallImpact { player: usize, speed: i64 },
    PlayerImpact { first: usize, second: usize, first_speed: i64, second_speed: i64 },
    PlayerDepleted { player: usize, farewell: u8 },
    SubmergedLoop { player: usize, on: bool },
}

pub open spec fn on_glass_channel(e: GameEvent) -> bool {
    e matches GameEvent::WallImpact { .. }
}

pub open spec fn on_player_channel(e: GameEvent) -> bool {
    e matches GameEvent::PlayerImpact { .. }
}

impl GlassChannel {
    /// Whether this channel plays the event.
    pub fn accepts(&self, e: &GameEvent) -> (r: bool)
        ensures
            r == on_glass_channel(*e),
    {
        matches!(e, GameEvent::WallImpact { .. })
    }
}

impl PlayerChannel {
    /// Whether this channel plays the event.
    pub fn accepts(&self, e: &GameEvent) -> (r: bool)
        ensures
            r == on_player_channel(*e),
    {
        matches!(e, GameEvent::PlayerImpact { .. })
    }
}

/// A sound ambient-loop event: the named player's submersion differs from
/// what the sink is playing, and the event carries the new state.
pub open spec fn submerged_event_ok(ps: Seq<PlayerState>, playing: Seq<bool>, e: GameEvent) -> bool {
    &&& e matches GameEvent::SubmergedLoop { player, on }
    &&& 0 <= (e->SubmergedLoop_player as int) < ps.len()
    &&& e->SubmergedLoop_on == in_water(ps[e->SubmergedLoop_player as int].pos)
    &&& e->SubmergedLoop_on != playing[e->SubmergedLoop_player as int]
}

pub open spec fn is_loop_event_for(e: GameEvent, a: int) -> bool {
    e matches GameEvent::SubmergedLoop { player, .. } && player == a
}

/// The loop events report strictly increasing player indices, so no player
/// appears twice: exactly one on/off notification per submersion change.
pub open spec fn submerged_events_ordered(s: Seq<GameEvent>) -> bool {
    forall|k1: int, k2: int|
        0 <= k1 < k2 < s.len() ==> ((#[trigger] s[k1])->SubmergedLoop_player as int) < ((
        #[trigger] s[k2])->SubmergedLoop_player as int)
}

/// The ambient submerged loop, keyed by player index: `playing` holds what
/// the audio sink is looping now; each player whose liquid membership
/// differs gets exactly one on/off notification, and the tracked state is
/// brought up to date.
pub fn play_effervescent_sound(players: &Vec<PlayerState>, playing: &mut Vec<bool>) -> (events: Vec<
    GameEvent,
>)
    requires
        old(playing)@.len() == players@.len(),
    ensures
        final(playing)@.len() == players@.len(),
        forall|i: int|
            0 <= i < players@.len() ==> #[trigger] final(playing)@[i] == in_water(
                players@[i].pos,
            ),
        forall|k: int|
            0 <= k < events@.len() ==> submerged_event_ok(
                players@,
                old(playing)@,
                #[trigger] events@[k],
            ),
        forall|i: int|
            0 <= i < players@.len() && #[trigger] in_water(players@[i].pos) != old(playing)@[i]
                ==> exists|k: int|
                0 <= k < events@.len() && is_loop_event_for(#[trigger] events@[k], i),
        submerged_events_ordered(events@),
{
    let ghost pl0 = playing@;
    let mut events: Vec<GameEvent> = Vec::new();
    let mut i: usize = 0;
    while i < players.len()
        invariant
            i <= players@.len(),
            playing@.len() == players@.len(),
            pl0.len() == players@.len(),
            pl0 == old(playing)@,
            forall|k: int| i <= k < playing@.len() ==> playing@[k] == pl0[k],
            forall|k: int| 0 <= k < i ==> #[trigger] playing@[k] == in_water(players@[k].pos),
            forall|k: int|
                0 <= k < events@.len() ==> submerged_event_ok(players@, pl0, #[trigger] events@[k]),
            forall|k: int|
                0 <= k < i && #[trigger] in_water(players@[k].pos) != pl0[k] ==> exists|e: int|
                    0 <= e < events@.len() && is_loop_event_for(#[trigger] events@[e], k),
            submerged_events_ordered(events@),
            forall|k: int|
                0 <= k < events@.len() ==> ((#[trigger] events@[k])->SubmergedLoop_player as int)
                    < i as int,
        decreases players@.len() - i,
    {
        let sub = is_in_water(players[i].pos);
        if sub != playing[i] {
            let ghost ev0 = events@;
            events.push(GameEvent::SubmergedLoop { player: i, on: sub });
            proof {
                assert forall|k1: int, k2: int|
                    0 <= k1 < k2 < events@.len() implies ((
                #[trigger] events@[k1])->SubmergedLoop_player as int) < ((
                #[trigger] events@[k2])->SubmergedLoop_player as int) by {
                    if k2 < events@.len() - 1 {
                        assert(events@[k1] == ev0[k1] && events@[k2] == ev0[k2]);
                    } else {
                        assert(events@[k1] == ev0[k1]);
                    }
                }
                assert forall|k: int|
                    0 <= k < i as int && #[trigger] in_water(players@[k].pos)
                        != pl0[k] implies exists|e: int|
                    0 <= e < events@.len() && is_loop_event_for(#[trigger] events@[e], k) by {
                    let e0 = choose|e: int|
                        0 <= e < ev0.len() && is_loop_event_for(#[trigger] ev0[e], k);
                    assert(events@[e0] == ev0[e0]);
                    assert(is_loop_event_for(events@[e0], k));
                }
                assert(is_loop_event_for(events@[events@.len() - 1], i as int));
            }
        }
        playing.set(i, sub);
        i = i + 1;
    }
    events
}

} // verus!
