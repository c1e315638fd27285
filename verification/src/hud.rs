//! HUD computations: the per-player health bar width the render sink
//! consumes each tick, and the end-of-round display selection (winner banner
//! or draw).

use vstd::prelude::*;

verus! {

use crate::environment::INITIAL_HEALTH;
use crate::fixed::max_spec;
use crate::player::alive_count;
use crate::player::alive_upto;
use crate::player::last_alive;
use crate::player::last_alive_upto;
use crate::player::PlayerState;

/// What the end screen shows: the last survivor's banner, or the dead cup on
/// a draw.
#[derive(Clone, Copy, PartialEq, Eq, Structural, Debug)]
pub enum WinnerDisplay {
    Draw,
    Winner(usize),
}

/// A health bar's inner width in milli percent: a fixed minimum plus the
/// remainder scaled by the health share, negative health showing as empty.
pub open spec fn bar_width_spec(h: int) -> int {
    13_000 + 87_000 * max_spec(h, 0) / (INITIAL_HEALTH as int)
}

pub open spec fn winner_spec(ps: Seq<PlayerState>) -> WinnerDisplay {
    if alive_count(ps) == 0 {
        WinnerDisplay::Draw
    } else {
        WinnerDisplay::Winner(last_alive(ps) as usize)
    }
}

/// The HUD subsystem: pure read-only snapshots for the render sink.
pub struct GameHudPlugin;

impl GameHudPlugin {
    /// The inner-bar widths for every player, in milli percent of the outer
    /// bar, in player order.
    pub fn update_ui(players: &Vec<PlayerState>) -> (widths: Vec<i64>)
        requires
            forall|k: int| 0 <= k < players@.len() ==> (#[trigger] players@[k]).wf(),
        ensures
            widths@.len() == players@.len(),
            forall|i: int|
                0 <= i < widths@.len() ==> #[trigger] widths@[i] == bar_width_spec(
                    players@[i].health as int,
                ),
            forall|i: int| 0 <= i < widths@.len() ==> 13_000 <= #[trigger] widths@[i] <= 100_000,
    {
        let mut widths: Vec<i64> = Vec::new();
        let mut i: usize = 0;
        while i < players.len()
            invariant
                i <= players@.len(),
                widths@.len() == i,
                forall|k: int| 0 <= k < players@.len() ==> (#[trigger] players@[k]).wf(),
                forall|k: int|
                    0 <= k < i ==> #[trigger] widths@[k] == bar_width_spec(
                        players@[k].health as int,
                    ),
                forall|k: int| 0 <= k < i ==> 13_000 <= #[trigger] widths@[k] <= 100_000,
            decreases players@.len() - i,
        {
            let h = players[i].health;
            let hm: u64 = if h >= 0 {
                h as u64
            } else {
                0
            };
            proof {
                vstd::arithmetic::div_mod::lemma_div_is_ordered(
                    87_000 * (hm as int),
                    87_000_000_000_000,
                    INITIAL_HEALTH as int,
                );
                vstd::arithmetic::div_mod::lemma_div_pos_is_pos(
                    87_000 * (hm as int),
                    INITIAL_HEALTH as int,
                );
                crate::fixed::lemma_mul_bound(87_000, hm as int, 87_000, INITIAL_HEALTH as int);
            }
            let w: i64 = 13_000 + ((87_000u64 * hm) / (INITIAL_HEALTH as u64)) as i64;
            widths.push(w);
            i = i + 1;
        }
        widths
    }

    /// What the end screen shows once the round is over: a draw when nobody
    /// is left alive, else the last surviving player's banner.
    pub fn end_game_display(players: &Vec<PlayerState>) -> (w: WinnerDisplay)
        requires
            players@.len() <= 4,
        ensures
            w == winner_spec(players@),
    {
        let mut alive: usize = 0;
        let mut last: usize = 0;
        let mut i: usize = 0;
        while i < players.len()
            invariant
                i <= players@.len(),
                players@.len() <= 4,
                alive as int == alive_upto(players@, i as int),
                alive <= i,
                last as int == last_alive_upto(players@, i as int),
                last <= 4,
            decreases players@.len() - i,
        {
            if players[i].health > 0 {
                alive = alive + 1;
                last = i;
            }
            i = i + 1;
        }
        if alive == 0 {
            WinnerDisplay::Draw
        } else {
            WinnerDisplay::Winner(last)
        }
    }
}

} // verus!
