//! Round lifecycle: validated configuration, player seating, the per-tick
//! pipeline around the external integrator, and the end-of-round state
//! machine with its countdown.
//!
//! A tick runs in three verified stages.  `pre_physics` samples input,
//! applies thrust and passive forces and emits bubbles; the external
//! rigid-body integrator then advances every body; `apply_integration`
//! writes its results back, and `post_physics` consumes collision events,
//! applies damage, culls bubbles, decays depleted players and evaluates the
//! win condition.

use vstd::prelude::*;

verus! {

use crate::bubbles::bubble_emiter;
use crate::bubbles::emit_count;
use crate::bubbles::emitted_ok;
use crate::bubbles::try_kill_bubbles;
use crate::bubbles::BubbleState;
use crate::damage::try_kill_by_health;
use crate::damage::try_kill_by_zone;
use crate::damage::update_health;
use crate::damage::water_damage;
use crate::environment::in_water;
use crate::environment::BUBBLE_MASS;
use crate::environment::BUBBLE_VOLUME;
use crate::environment::CACHET_DENSITY;
use crate::environment::CACHET_VOLUME;
use crate::environment::GLASS_BOTTOM_Y;
use crate::environment::INITIAL_HEALTH;
use crate::environment::MENU_DURATION;
use crate::events::GameEvent;
use crate::forces::air_gravity_spec;
use crate::forces::buoyancy_spec;
use crate::forces::damped_spec;
use crate::forces::drag_force;
use crate::forces::ForceOut;
use crate::forces::AIR_KEEP;
use crate::forces::WATER_KEEP;
use crate::geometry::Rot;
use crate::geometry::Vec2I;
use crate::geometry::POS_LIMIT;
use crate::geometry::VEL_LIMIT;
use crate::on_hit::lemma_wall_damage_same_vel;
use crate::on_hit::pp_damage_total;
use crate::on_hit::pp_event_ok;
use crate::on_hit::wall_damage_total;
use crate::on_hit::wall_event_ok;
use crate::on_hit::OnHitPlugin;
use crate::on_hit::NUM_WALLS;
use crate::player::alive_count;
use crate::player::alive_upto;
use crate::player::sub_health_spec;
use crate::player::DirInput;
use crate::player::PlayerState;
use crate::thrust::lemma_thrust_force_bounds;
use crate::thrust::thrust_effective;
use crate::thrust::thrust_force_x;
use crate::thrust::thrust_force_y;
use crate::thrust::thrust_torque;
use crate::thrust::turbo_cost;
use crate::thrust::use_turbo;

/// The validated player count of a round, fixed at round start.
#[derive(Clone, Copy, PartialEq, Eq, Structural, Debug)]
pub struct PlayerNumber(pub usize);

#[derive(Clone, Copy, PartialEq, Eq, Structural, Debug)]
pub enum ConfigError {
    InvalidPlayerCount,
}

impl PlayerNumber {
    /// Round-start configuration validation: a round seats one to four
    /// players; anything else is rejected before any tick runs.
    pub fn validate(n: usize) -> (r: Result<PlayerNumber, ConfigError>)
        ensures
            (1 <= n <= 4) <==> r is Ok,
            r is Ok ==> r->Ok_0 == PlayerNumber(n),
            r is Err ==> r->Err_0 == ConfigError::InvalidPlayerCount,
    {
        if 1 <= n && n <= 4 {
            Ok(PlayerNumber(n))
        } else {
            Err(ConfigError::InvalidPlayerCount)
        }
    }
}

/// The round's lifecycle state.
#[derive(Clone, Copy, PartialEq, Eq, Structural, Debug)]
pub enum Phase {
    Active,
    Ending { countdown: u32 },
    Exited,
}

impl Phase {
    pub open spec fn wf(self) -> bool {
        self matches Phase::Ending { countdown } ==> 1 <= countdown <= MENU_DURATION
    }
}

/// The round ends when, with one player, none remains alive; with more than
/// one, when at most one remains.
pub open spec fn end_condition(n: int, alive: int) -> bool {
    (n == 1 && alive <= 0) || (n != 1 && alive <= 1)
}

/// The transition out of the active phase; while an end screen is already
/// up, the win condition is not re-evaluated.
pub open spec fn end_transition(phase: Phase, n: int, alive: int) -> Phase {
    if phase is Active && end_condition(n, alive) {
        Phase::Ending { countdown: MENU_DURATION }
    } else {
        phase
    }
}

/// One tick of the end-screen countdown: decremented by exactly one, and the
/// round exits the moment it reaches zero; other phases are untouched.
pub open spec fn countdown_step_spec(phase: Phase) -> Phase {
    match phase {
        Phase::Ending { countdown } => if countdown <= 1 {
            Phase::Exited
        } else {
            Phase::Ending { countdown: (countdown - 1) as u32 }
        },
        _ => phase,
    }
}

/// What the phase becomes at the end of one tick, given the player count and
/// how many are then alive: an active round evaluates the win condition, an
/// ending round counts down, an exited round stays exited.
pub open spec fn phase_tick(phase: Phase, n: int, alive: int) -> Phase {
    if phase is Active {
        end_transition(phase, n, alive)
    } else {
        countdown_step_spec(phase)
    }
}

/// The integrator's answer for one body after one step.
#[derive(Clone, Copy, PartialEq, Eq, Structural, Debug)]
pub struct BodyUpdate {
    pub pos: Vec2I,
    pub vel: Vec2I,
    pub ang_vel: i64,
    pub rot: Rot,
}

impl BodyUpdate {
    pub open spec fn wf(self) -> bool {
        &&& self.pos.in_bounds(POS_LIMIT as int)
        &&& self.vel.in_bounds(VEL_LIMIT as int)
        &&& -VEL_LIMIT <= self.ang_vel <= VEL_LIMIT
        &&& self.rot.wf()
    }
}

/// The forces one tick hands to the integrator, body by body.
pub struct TickForces {
    pub player_forces: Vec<ForceOut>,
    pub bubble_forces: Vec<ForceOut>,
}

/// A player's seat abscissa in the layout keyed by player count.
pub open spec fn seat_x(n: int, i: int) -> int {
    if n == 2 {
        if i == 0 {
            -200_000int
        } else {
            200_000int
        }
    } else if n == 3 {
        if i == 0 {
            -480_000int
        } else if i == 2 {
            480_000int
        } else {
            0int
        }
    } else if n == 4 {
        if i == 0 {
            -533_333int
        } else if i == 1 {
            -133_333int
        } else if i == 2 {
            133_333int
        } else {
            533_333int
        }
    } else {
        0int
    }
}

/// A freshly seated player: at the layout seat, at rest, unrotated, with
/// full health and scale and the tablet density.
pub open spec fn seated_ok(n: int, i: int, p: PlayerState) -> bool {
    &&& p.pos.x == seat_x(n, i)
    &&& p.pos.y == 0
    &&& p.vel == (Vec2I { x: 0, y: 0 })
    &&& p.ang_vel == 0
    &&& p.rot == (Rot { c: 1000, s: 0 })
    &&& p.health == INITIAL_HEALTH
    &&& p.scale == 1000
    &&& p.density == CACHET_DENSITY
    &&& p.present
}

/// A player's mass as the integrator derives it: density times volume,
/// rescaled to milli.
pub open spec fn player_mass(p: PlayerState) -> int {
    p.density * (CACHET_VOLUME as int) / 1000
}

/// The milli keep factor the drag model applies at a position.
pub open spec fn keep_of(pos: Vec2I) -> int {
    if in_water(pos) {
        WATER_KEEP as int
    } else {
        AIR_KEEP as int
    }
}

/// Horizontal force on a player for one tick: thrust alone (the passive
/// model is purely vertical).
pub open spec fn player_tick_force_x(p: PlayerState, i: DirInput) -> int {
    if thrust_effective(p) {
        thrust_force_x(i, p.rot)
    } else {
        0int
    }
}

/// Vertical force on a player for one tick: thrust while effective, plus
/// buoyancy in the liquid or the amplified gravity term in the air.
pub open spec fn player_tick_force_y(p: PlayerState, i: DirInput) -> int {
    (if thrust_effective(p) {
        thrust_force_y(i, p.rot)
    } else {
        0int
    }) + (if in_water(p.pos) {
        buoyancy_spec(CACHET_VOLUME as int)
    } else {
        -air_gravity_spec(player_mass(p))
    })
}

pub open spec fn player_tick_torque(p: PlayerState, i: DirInput) -> int {
    if thrust_effective(p) {
        thrust_torque(i, p.rot)
    } else {
        0int
    }
}

/// What the pre-integration half of a tick does to one player: thrust cost
/// charged while effective, velocities damped by the medium's coefficient,
/// everything else untouched.
pub open spec fn pre_tick_player_ok(p0: PlayerState, input: DirInput, p1: PlayerState) -> bool {
    &&& p1.pos == p0.pos
    &&& p1.rot == p0.rot
    &&& p1.scale == p0.scale
    &&& p1.density == p0.density
    &&& p1.present == p0.present
    &&& p1.health == sub_health_spec(
        p0.health as int,
        if thrust_effective(p0) {
            turbo_cost(input)
        } else {
            0int
        },
    )
    &&& p1.health <= p0.health
    &&& p1.vel.x == damped_spec(p0.vel.x as int, keep_of(p0.pos))
    &&& p1.vel.y == damped_spec(p0.vel.y as int, keep_of(p0.pos))
    &&& p1.ang_vel == damped_spec(p0.ang_vel as int, keep_of(p0.pos))
}

/// The force one tick hands the integrator for one player.
pub open spec fn pre_tick_force_ok(p0: PlayerState, input: DirInput, f: ForceOut) -> bool {
    &&& f.force.x == player_tick_force_x(p0, input)
    &&& f.force.y == player_tick_force_y(p0, input)
    &&& f.torque == player_tick_torque(p0, input)
}

/// The force one tick hands the integrator for one pre-existing bubble, and
/// what the drag pass leaves of it.
pub open spec fn pre_tick_bubble_ok(b0: BubbleState, b1: BubbleState, f: ForceOut) -> bool {
    &&& b1.pos == b0.pos
    &&& b1.collidable == b0.collidable
    &&& b1.vel.x == damped_spec(b0.vel.x as int, keep_of(b0.pos))
    &&& b1.vel.y == damped_spec(b0.vel.y as int, keep_of(b0.pos))
    &&& f.force.x == 0
    &&& f.force.y == (if in_water(b0.pos) {
        buoyancy_spec(BUBBLE_VOLUME as int)
    } else {
        -air_gravity_spec(BUBBLE_MASS as int)
    })
    &&& f.torque == 0
}

/// The health one tick's post-integration half leaves a player, computed
/// from the pre-tick state and the tick's overlap tables: ram damage and
/// wall damage in order, then the zone-kill, then the water tick; the
/// dissolve never touches health.
pub open spec fn post_tick_health(
    ps0: Seq<PlayerState>,
    ppov: Seq<bool>,
    pp_prev: Seq<bool>,
    wov: Seq<bool>,
    wall_prev: Seq<bool>,
    n: int,
    i: int,
) -> int {
    let h1 = sub_health_spec(ps0[i].health as int, pp_damage_total(ps0, ppov, pp_prev, n, i));
    let h2 = sub_health_spec(h1, wall_damage_total(ps0, wov, wall_prev, i));
    let h3 = if ps0[i].pos.y < GLASS_BOTTOM_Y {
        crate::damage::zone_killed_health(h2)
    } else {
        h2
    };
    if in_water(ps0[i].pos) {
        sub_health_spec(h3, water_damage())
    } else {
        h3
    }
}

/// How many bubbles one tick emits for one post-thrust player state.
pub open spec fn emitted_len(p: PlayerState, i: DirInput) -> int {
    if thrust_effective(p) {
        emit_count(i)
    } else {
        0int
    }
}

/// Where player k's emission segment begins, relative to the bubbles that
/// already existed: the total emitted by the players before it.
pub open spec fn emit_offset(ps: Seq<PlayerState>, inputs: Seq<DirInput>, k: int) -> int
    decreases k,
{
    if k <= 0 {
        0int
    } else {
        emit_offset(ps, inputs, k - 1) + emitted_len(ps[k - 1], inputs[k - 1])
    }
}

proof fn lemma_emit_offset_mono(ps: Seq<PlayerState>, inputs: Seq<DirInput>, a: int, b: int)
    requires
        0 <= a <= b,
    ensures
        emit_offset(ps, inputs, a) <= emit_offset(ps, inputs, b),
    decreases b,
{
    if a < b {
        lemma_emit_offset_mono(ps, inputs, a, b - 1);
        assert(emitted_len(ps[b - 1], inputs[b - 1]) >= 0);
    }
}

/// A composite event of the tick is one of the three damage reports: a
/// player impact or wall impact that started this tick, or a player found
/// newly depleted, judged against the pre-tick state and the final healths.
pub open spec fn post_event_ok(
    ps0: Seq<PlayerState>,
    pp_prev: Seq<bool>,
    wall_prev: Seq<bool>,
    n: int,
    ps1: Seq<PlayerState>,
    ppov: Seq<bool>,
    wov: Seq<bool>,
    e: GameEvent,
) -> bool {
    ||| pp_event_ok(ps0, ppov, pp_prev, n, e)
    ||| wall_event_ok(ps0, wov, wall_prev, n, e)
    ||| {
        &&& e matches GameEvent::PlayerDepleted { player, farewell }
        &&& 0 <= (e->PlayerDepleted_player as int) < ps0.len()
        &&& ps0[e->PlayerDepleted_player as int].present
        &&& ps1[e->PlayerDepleted_player as int].health <= 0
        &&& ps0[e->PlayerDepleted_player as int].scale == 1000
        &&& (e->PlayerDepleted_farewell as int) < 3
    }
}

/// One round of play: the fixed configuration, every round-scoped body, the
/// collision tracker and the lifecycle phase.
pub struct Round {
    pub config: PlayerNumber,
    pub players: Vec<PlayerState>,
    pub bubbles: Vec<BubbleState>,
    pub on_hit: OnHitPlugin,
    pub phase: Phase,
}

impl Round {
    pub open spec fn n_spec(self) -> int {
        self.config.0 as int
    }

    pub open spec fn wf(self) -> bool {
        &&& 1 <= self.config.0 <= 4
        &&& self.players@.len() == self.config.0
        &&& forall|k: int| 0 <= k < self.players@.len() ==> (#[trigger] self.players@[k]).wf()
        &&& forall|k: int| 0 <= k < self.bubbles@.len() ==> (#[trigger] self.bubbles@[k]).wf()
        &&& self.on_hit.wf()
        &&& self.on_hit.n == self.config.0
        &&& self.phase.wf()
    }

    /// Round start: validates the player count, seats the players in the
    /// layout keyed by that count, and begins the active phase with no
    /// bubbles and a cleared collision tracker.
    pub fn new(n: usize) -> (r: Result<Round, ConfigError>)
        ensures
            (1 <= n <= 4) <==> r is Ok,
            r is Err ==> r->Err_0 == ConfigError::InvalidPlayerCount,
            r is Ok ==> {
                let round = r->Ok_0;
                &&& round.wf()
                &&& round.config.0 == n
                &&& round.phase == Phase::Active
                &&& round.bubbles@.len() == 0
                &&& round.players@.len() == n
                &&& forall|i: int|
                    0 <= i < n ==> seated_ok(n as int, i, #[trigger] round.players@[i])
                &&& forall|k: int|
                    0 <= k < round.on_hit.pp_prev@.len() ==> !(#[trigger] round.on_hit.pp_prev@[k])
                &&& forall|k: int|
                    0 <= k < round.on_hit.wall_prev@.len() ==> !(
                    #[trigger] round.on_hit.wall_prev@[k])
            },
    {
        let config = match PlayerNumber::validate(n) {
            Ok(c) => c,
            Err(e) => {
                return Err(e);
            },
        };
        let mut players: Vec<PlayerState> = Vec::new();
        let mut i: usize = 0;
        while i < n
            invariant
                1 <= n <= 4,
                i <= n,
                players@.len() == i,
                forall|k: int| 0 <= k < i ==> seated_ok(n as int, k, #[trigger] players@[k]),
                forall|k: int| 0 <= k < i ==> (#[trigger] players@[k]).wf(),
            decreases n - i,
        {
            let x: i64 = if n == 2 {
                if i == 0 {
                    -200_000
                } else {
                    200_000
                }
            } else if n == 3 {
                if i == 0 {
                    -480_000
                } else if i == 2 {
                    480_000
                } else {
                    0
                }
            } else if n == 4 {
                if i == 0 {
                    -533_333
                } else if i == 1 {
                    -133_333
                } else if i == 2 {
                    133_333
                } else {
                    533_333
                }
            } else {
                0
            };
            players.push(PlayerState::spawn(Vec2I { x, y: 0 }));
            i = i + 1;
        }
        Ok(
            Round {
                config,
                players,
                bubbles: Vec::new(),
                on_hit: OnHitPlugin::new(n),
                phase: Phase::Active,
            },
        )
    }

    /// The pre-integration half of a tick, in order: thrust forces and their
    /// drive-wear cost, the passive force pass over players and bubbles
    /// (damping velocities in place), then bubble emission for every
    /// thrusting or drifting player.  The returned forces cover exactly the
    /// bodies that existed when the tick began, in order.
    pub fn pre_physics(&mut self, inputs: &Vec<DirInput>) -> (forces: TickForces)
        requires
            old(self).wf(),
            inputs@.len() == old(self).config.0,
        ensures
            final(self).wf(),
            final(self).config == old(self).config,
            final(self).phase == old(self).phase,
            final(self).on_hit == old(self).on_hit,
            final(self).players@.len() == old(self).players@.len(),
            forall|i: int|
                0 <= i < final(self).players@.len() ==> pre_tick_player_ok(
                    old(self).players@[i],
                    inputs@[i],
                    #[trigger] final(self).players@[i],
                ),
            forces.player_forces@.len() == old(self).players@.len(),
            forall|i: int|
                0 <= i < forces.player_forces@.len() ==> pre_tick_force_ok(
                    old(self).players@[i],
                    inputs@[i],
                    #[trigger] forces.player_forces@[i],
                ),
            forces.bubble_forces@.len() == old(self).bubbles@.len(),
            forall|k: int|
                0 <= k < forces.bubble_forces@.len() ==> pre_tick_bubble_ok(
                    old(self).bubbles@[k],
                    final(self).bubbles@[k],
                    #[trigger] forces.bubble_forces@[k],
                ),
            final(self).bubbles@.len() == old(self).bubbles@.len() + emit_offset(
                final(self).players@,
                inputs@,
                old(self).players@.len() as int,
            ),
            forall|k: int|
                0 <= k < final(self).players@.len() && thrust_effective(final(self).players@[k])
                    ==> emitted_ok(
                    final(self).players@[k],
                    inputs@[k],
                    final(self).bubbles@.subrange(
                        old(self).bubbles@.len() + #[trigger] emit_offset(
                            final(self).players@,
                            inputs@,
                            k,
                        ),
                        old(self).bubbles@.len() + emit_offset(final(self).players@, inputs@, k + 1),
                    ),
                ),
    {
        let n = self.config.0;
        let ghost ps0 = self.players@;
        let ghost bs0 = self.bubbles@;
        let mut player_forces: Vec<ForceOut> = Vec::new();
        let mut i: usize = 0;
        while i < n
            invariant
                self.config.0 == n,
                1 <= n <= 4,
                inputs@.len() == n,
                self.players@.len() == n,
                ps0.len() == n,
                ps0 == old(self).players@,
                bs0 == self.bubbles@,
                self.bubbles == old(self).bubbles,
                self.on_hit == old(self).on_hit,
                self.config == old(self).config,
                self.phase == old(self).phase,
                self.on_hit.wf(),
                self.on_hit.n == n,
                self.phase.wf(),
                forall|k: int| 0 <= k < n ==> (#[trigger] ps0[k]).wf(),
                forall|k: int| 0 <= k < self.bubbles@.len() ==> (#[trigger] self.bubbles@[k]).wf(),
                i <= n,
                player_forces@.len() == i,
                forall|k: int| i <= k < n ==> self.players@[k] == ps0[k],
                forall|k: int| 0 <= k < n ==> (#[trigger] self.players@[k]).wf(),
                forall|k: int|
                    0 <= k < i ==> pre_tick_player_ok(
                        ps0[k],
                        inputs@[k],
                        #[trigger] self.players@[k],
                    ),
                forall|k: int|
                    0 <= k < i ==> pre_tick_force_ok(ps0[k], inputs@[k], #[trigger] player_forces@[k]),
            decreases n - i,
        {
            let mut p = self.players[i];
            let ghost p_start = p;
            let thrust_out = use_turbo(inputs[i], &mut p);
            proof {
                lemma_thrust_force_bounds(inputs@[i as int], p_start.rot);
                crate::fixed::lemma_mul_bound(
                    p_start.density as int,
                    CACHET_VOLUME as int,
                    100_000,
                    CACHET_VOLUME as int,
                );
                vstd::arithmetic::div_mod::lemma_div_pos_is_pos(
                    p_start.density * (CACHET_VOLUME as int),
                    1000,
                );
                vstd::arithmetic::div_mod::lemma_div_is_ordered(
                    p_start.density * (CACHET_VOLUME as int),
                    100_000 * (CACHET_VOLUME as int),
                    1000,
                );
            }
            let mass: i64 = ((p.density as u64) * (CACHET_VOLUME as u64) / 1000) as i64;
            let mut vel = p.vel;
            let mut av = p.ang_vel;
            let passive = drag_force(p.pos, CACHET_VOLUME, mass, &mut vel, &mut av);
            p.vel = vel;
            p.ang_vel = av;
            self.players.set(i, p);
            proof {
                assert(buoyancy_spec(CACHET_VOLUME as int) == 208_732_160);
                vstd::arithmetic::div_mod::lemma_div_pos_is_pos(
                    352_800 * (player_mass(p_start)),
                    1000,
                );
                vstd::arithmetic::div_mod::lemma_div_is_ordered(
                    352_800 * player_mass(p_start),
                    352_800int * 327_680_000int,
                    1000,
                );
                crate::fixed::lemma_mul_bound(352_800, player_mass(p_start), 352_800, 327_680_000);
            }
            let total = ForceOut {
                force: Vec2I {
                    x: thrust_out.force.x + passive.force.x,
                    y: thrust_out.force.y + passive.force.y,
                },
                torque: thrust_out.torque + passive.torque,
            };
            player_forces.push(total);
            i = i + 1;
        }
        let ghost ps_mid = self.players@;
        let mut bubble_forces: Vec<ForceOut> = Vec::new();
        let mut k: usize = 0;
        while k < self.bubbles.len()
            invariant
                self.config.0 == n,
                1 <= n <= 4,
                self.players@.len() == n,
                self.bubbles@.len() == bs0.len(),
                self.on_hit == old(self).on_hit,
                self.config == old(self).config,
                self.phase == old(self).phase,
                self.on_hit.wf(),
                self.on_hit.n == n,
                self.phase.wf(),
                forall|t: int| 0 <= t < n ==> (#[trigger] self.players@[t]).wf(),
                self.players@ == ps_mid,
                ps_mid.len() == n,
                ps0 == old(self).players@,
                inputs@.len() == n,
                forall|t: int|
                    0 <= t < n ==> pre_tick_player_ok(ps0[t], inputs@[t], #[trigger] ps_mid[t]),
                k <= bs0.len(),
                bubble_forces@.len() == k,
                forall|t: int| k <= t < bs0.len() ==> self.bubbles@[t] == bs0[t],
                forall|t: int| 0 <= t < bs0.len() ==> (#[trigger] self.bubbles@[t]).wf(),
                forall|t: int| 0 <= t < bs0.len() ==> (#[trigger] bs0[t]).wf(),
                forall|t: int|
                    0 <= t < k ==> pre_tick_bubble_ok(
                        bs0[t],
                        self.bubbles@[t],
                        #[trigger] bubble_forces@[t],
                    ),
            decreases bs0.len() - k,
        {
            let mut b = self.bubbles[k];
            let mut vel = b.vel;
            let mut av: i64 = 0;
            let f = drag_force(b.pos, BUBBLE_VOLUME, BUBBLE_MASS, &mut vel, &mut av);
            b.vel = vel;
            self.bubbles.set(k, b);
            bubble_forces.push(f);
            k = k + 1;
        }
        let ghost bs1 = self.bubbles@;
        let mut i2: usize = 0;
        while i2 < n
            invariant
                self.config.0 == n,
                1 <= n <= 4,
                inputs@.len() == n,
                self.players@.len() == n,
                self.on_hit == old(self).on_hit,
                self.config == old(self).config,
                self.phase == old(self).phase,
                self.on_hit.wf(),
                self.on_hit.n == n,
                self.phase.wf(),
                forall|t: int| 0 <= t < n ==> (#[trigger] self.players@[t]).wf(),
                self.players@ == ps_mid,
                ps_mid.len() == n,
                ps0 == old(self).players@,
                bs0 == old(self).bubbles@,
                bs1.len() == bs0.len(),
                forall|t: int|
                    0 <= t < n ==> pre_tick_player_ok(ps0[t], inputs@[t], #[trigger] ps_mid[t]),
                forall|t: int|
                    0 <= t < bs0.len() ==> pre_tick_bubble_ok(
                        bs0[t],
                        bs1[t],
                        #[trigger] bubble_forces@[t],
                    ),
                bubble_forces@.len() == bs0.len(),
                forall|t: int|
                    0 <= t < i ==> pre_tick_force_ok(ps0[t], inputs@[t], #[trigger] player_forces@[t]),
                player_forces@.len() == n,
                i2 <= n,
                self.bubbles@.len() == bs1.len() + emit_offset(ps_mid, inputs@, i2 as int),
                forall|t: int| 0 <= t < bs1.len() ==> #[trigger] self.bubbles@[t] == bs1[t],
                forall|t: int| 0 <= t < self.bubbles@.len() ==> (#[trigger] self.bubbles@[t]).wf(),
                forall|t: int|
                    0 <= t < i2 as int && thrust_effective(ps_mid[t]) ==> emitted_ok(
                        ps_mid[t],
                        inputs@[t],
                        self.bubbles@.subrange(
                            bs1.len() + #[trigger] emit_offset(ps_mid, inputs@, t),
                            bs1.len() + emit_offset(ps_mid, inputs@, t + 1),
                        ),
                    ),
            decreases n - i2,
        {
            let p = self.players[i2];
            let mut spawned = bubble_emiter(&p, inputs[i2]);
            let ghost sv = spawned@;
            let ghost bb0 = self.bubbles@;
            self.bubbles.append(&mut spawned);
            proof {
                lemma_emit_offset_mono(ps_mid, inputs@, 0, i2 as int);
                assert(emit_offset(ps_mid, inputs@, i2 as int + 1) == emit_offset(
                    ps_mid,
                    inputs@,
                    i2 as int,
                ) + emitted_len(ps_mid[i2 as int], inputs@[i2 as int]));
                if thrust_effective(ps_mid[i2 as int]) {
                    assert(sv.len() == emit_count(inputs@[i2 as int]));
                    assert(self.bubbles@.subrange(bb0.len() as int, self.bubbles@.len() as int)
                        =~= sv);
                }
                assert forall|t: int|
                    0 <= t < i2 as int && thrust_effective(ps_mid[t]) implies emitted_ok(
                    ps_mid[t],
                    inputs@[t],
                    self.bubbles@.subrange(
                        bs1.len() + #[trigger] emit_offset(ps_mid, inputs@, t),
                        bs1.len() + emit_offset(ps_mid, inputs@, t + 1),
                    ),
                ) by {
                    lemma_emit_offset_mono(ps_mid, inputs@, 0, t);
                    lemma_emit_offset_mono(ps_mid, inputs@, t + 1, i2 as int);
                    assert(self.bubbles@.subrange(
                        bs1.len() + emit_offset(ps_mid, inputs@, t),
                        bs1.len() + emit_offset(ps_mid, inputs@, t + 1),
                    ) =~= bb0.subrange(
                        bs1.len() + emit_offset(ps_mid, inputs@, t),
                        bs1.len() + emit_offset(ps_mid, inputs@, t + 1),
                    ));
                }
            }
            i2 = i2 + 1;
        }
        TickForces { player_forces, bubble_forces }
    }

    /// Writes the integrator's step back into the round: every body takes
    /// the reported position, velocity and rotation; health, scale, density
    /// and presence are untouched.
    pub fn apply_integration(
        &mut self,
        players_upd: &Vec<BodyUpdate>,
        bubbles_upd: &Vec<BodyUpdate>,
    )
        requires
            old(self).wf(),
            players_upd@.len() == old(self).players@.len(),
            bubbles_upd@.len() == old(self).bubbles@.len(),
            forall|k: int| 0 <= k < players_upd@.len() ==> (#[trigger] players_upd@[k]).wf(),
            forall|k: int| 0 <= k < bubbles_upd@.len() ==> (#[trigger] bubbles_upd@[k]).wf(),
        ensures
            final(self).wf(),
            final(self).config == old(self).config,
            final(self).phase == old(self).phase,
            final(self).on_hit == old(self).on_hit,
            final(self).players@.len() == old(self).players@.len(),
            final(self).bubbles@.len() == old(self).bubbles@.len(),
            forall|i: int|
                0 <= i < final(self).players@.len() ==> {
                    let p0 = old(self).players@[i];
                    let u = players_upd@[i];
                    let p1 = #[trigger] final(self).players@[i];
                    &&& p1.pos == u.pos
                    &&& p1.vel == u.vel
                    &&& p1.ang_vel == u.ang_vel
                    &&& p1.rot == u.rot
                    &&& p1.health == p0.health
                    &&& p1.scale == p0.scale
                    &&& p1.density == p0.density
                    &&& p1.present == p0.present
                },
            forall|k: int|
                0 <= k < final(self).bubbles@.len() ==> {
                    let b0 = old(self).bubbles@[k];
                    let u = bubbles_upd@[k];
                    let b1 = #[trigger] final(self).bubbles@[k];
                    &&& b1.pos == u.pos
                    &&& b1.vel == u.vel
                    &&& b1.collidable == b0.collidable
                },
    {
        let ghost ps0 = self.players@;
        let mut i: usize = 0;
        while i < self.players.len()
            invariant
                self.players@.len() == ps0.len(),
                ps0 == old(self).players@,
                players_upd@.len() == ps0.len(),
                self.bubbles == old(self).bubbles,
                self.on_hit == old(self).on_hit,
                self.config == old(self).config,
                self.phase == old(self).phase,
                i <= ps0.len(),
                forall|k: int| 0 <= k < players_upd@.len() ==> (#[trigger] players_upd@[k]).wf(),
                forall|k: int| 0 <= k < ps0.len() ==> (#[trigger] ps0[k]).wf(),
                forall|k: int| i <= k < ps0.len() ==> self.players@[k] == ps0[k],
                forall|k: int| 0 <= k < ps0.len() ==> (#[trigger] self.players@[k]).wf(),
                forall|k: int|
                    0 <= k < i ==> {
                        let p0 = ps0[k];
                        let u = players_upd@[k];
                        let p1 = #[trigger] self.players@[k];
                        &&& p1.pos == u.pos
                        &&& p1.vel == u.vel
                        &&& p1.ang_vel == u.ang_vel
                        &&& p1.rot == u.rot
                        &&& p1.health == p0.health
                        &&& p1.scale == p0.scale
                        &&& p1.density == p0.density
                        &&& p1.present == p0.present
                    },
            decreases ps0.len() - i,
        {
            let u = players_upd[i];
            let mut p = self.players[i];
            p.pos = u.pos;
            p.vel = u.vel;
            p.ang_vel = u.ang_vel;
            p.rot = u.rot;
            self.players.set(i, p);
            i = i + 1;
        }
        let ghost bs0 = self.bubbles@;
        let ghost ps1 = self.players@;
        let mut k: usize = 0;
        while k < self.bubbles.len()
            invariant
                self.bubbles@.len() == bs0.len(),
                bs0 == old(self).bubbles@,
                bubbles_upd@.len() == bs0.len(),
                self.players@ == ps1,
                ps1.len() == old(self).players@.len(),
                forall|t: int| 0 <= t < ps1.len() ==> (#[trigger] ps1[t]).wf(),
                forall|t: int|
                    0 <= t < ps1.len() ==> {
                        let p0 = old(self).players@[t];
                        let u = players_upd@[t];
                        let p1 = #[trigger] ps1[t];
                        &&& p1.pos == u.pos
                        &&& p1.vel == u.vel
                        &&& p1.ang_vel == u.ang_vel
                        &&& p1.rot == u.rot
                        &&& p1.health == p0.health
                        &&& p1.scale == p0.scale
                        &&& p1.density == p0.density
                        &&& p1.present == p0.present
                    },
                self.on_hit == old(self).on_hit,
                self.config == old(self).config,
                self.phase == old(self).phase,
                k <= bs0.len(),
                forall|t: int| 0 <= t < bubbles_upd@.len() ==> (#[trigger] bubbles_upd@[t]).wf(),
                forall|t: int| k <= t < bs0.len() ==> self.bubbles@[t] == bs0[t],
                forall|t: int| 0 <= t < self.bubbles@.len() ==> (#[trigger] self.bubbles@[t]).wf(),
                forall|t: int|
                    0 <= t < k ==> {
                        let b0 = bs0[t];
                        let u = bubbles_upd@[t];
                        let b1 = #[trigger] self.bubbles@[t];
                        &&& b1.pos == u.pos
                        &&& b1.vel == u.vel
                        &&& b1.collidable == b0.collidable
                    },
            decreases bs0.len() - k,
        {
            let u = bubbles_upd[k];
            let mut b = self.bubbles[k];
            b.pos = u.pos;
            b.vel = u.vel;
            self.bubbles.set(k, b);
            k = k + 1;
        }
    }

    /// Counts the players whose health is still positive.
    fn count_alive(&self) -> (c: usize)
        requires
            self.players@.len() <= 4,
        ensures
            c as int == alive_count(self.players@),
            c <= self.players@.len(),
    {
        let mut alive: usize = 0;
        let mut i: usize = 0;
        while i < self.players.len()
            invariant
                i <= self.players@.len(),
                self.players@.len() <= 4,
                alive as int == alive_upto(self.players@, i as int),
                alive <= i,
            decreases self.players@.len() - i,
        {
            if self.players[i].health > 0 {
                alive = alive + 1;
            }
            i = i + 1;
        }
        alive
    }

    /// The win-condition check, run only while the round is active: when the
    /// condition keyed by the player count holds, the phase moves to the
    /// ending countdown.
    pub fn end_game_condition(&mut self)
        requires
            old(self).wf(),
        ensures
            final(self).wf(),
            final(self).config == old(self).config,
            final(self).players == old(self).players,
            final(self).bubbles == old(self).bubbles,
            final(self).on_hit == old(self).on_hit,
            final(self).phase == end_transition(
                old(self).phase,
                old(self).config.0 as int,
                alive_count(old(self).players@),
            ),
    {
        if matches!(self.phase, Phase::Active) {
            let n = self.config.0;
            let alive = self.count_alive();
            if (n == 1 && alive == 0) || (n != 1 && alive <= 1) {
                self.phase = Phase::Ending { countdown: MENU_DURATION };
            }
        }
    }

    /// One tick of the end-screen countdown; see `countdown_step_spec`.
    pub fn countdown_step(&mut self)
        requires
            old(self).wf(),
        ensures
            final(self).wf(),
            final(self).config == old(self).config,
            final(self).players == old(self).players,
            final(self).bubbles == old(self).bubbles,
            final(self).on_hit == old(self).on_hit,
            final(self).phase == countdown_step_spec(old(self).phase),
    {
        let next = match self.phase {
            Phase::Ending { countdown } => {
                if countdown <= 1 {
                    Phase::Exited
                } else {
                    Phase::Ending { countdown: countdown - 1 }
                }
            },
            other => other,
        };
        self.phase = next;
    }

    /// The post-integration half of a tick, in the fixed order: collision
    /// damage (players, then walls) fired on collision-start transitions,
    /// zone-kill and the water tick, bubble culling, depleted-player decay,
    /// and the round-end evaluation.  Health never rises, except that a
    /// player below the arena floor is set to exactly zero.
    pub fn post_physics(
        &mut self,
        pp_overlap: &Vec<bool>,
        wall_overlap: &Vec<bool>,
    ) -> (events: Vec<GameEvent>)
        requires
            old(self).wf(),
            pp_overlap@.len() == old(self).config.0 * old(self).config.0,
            wall_overlap@.len() == old(self).config.0 * NUM_WALLS,
        ensures
            final(self).wf(),
            final(self).config == old(self).config,
            final(self).players@.len() == old(self).players@.len(),
            forall|i: int|
                0 <= i < final(self).players@.len() ==> (#[trigger] final(self).players@[i]).health
                    <= old(self).players@[i].health,
            forall|i: int|
                0 <= i < final(self).players@.len() ==> (#[trigger] final(self).players@[i]).health
                    == post_tick_health(
                    old(self).players@,
                    pp_overlap@,
                    old(self).on_hit.pp_prev@,
                    wall_overlap@,
                    old(self).on_hit.wall_prev@,
                    old(self).config.0 as int,
                    i,
                ),
            forall|i: int|
                0 <= i < final(self).players@.len() ==> {
                    let p0 = old(self).players@[i];
                    let p1 = #[trigger] final(self).players@[i];
                    &&& p1.pos == p0.pos
                    &&& p1.rot == p0.rot
                    &&& p1.ang_vel == p0.ang_vel
                },
            final(self).on_hit.n == old(self).on_hit.n,
            final(self).on_hit.pp_prev@ == pp_overlap@,
            final(self).on_hit.wall_prev@ == wall_overlap@,
            final(self).bubbles@ == old(self).bubbles@.filter(
                |b: BubbleState| in_water(b.pos),
            ),
            final(self).phase == phase_tick(
                old(self).phase,
                old(self).config.0 as int,
                alive_count(final(self).players@),
            ),
            forall|k: int|
                0 <= k < events@.len() ==> post_event_ok(
                    old(self).players@,
                    old(self).on_hit.pp_prev@,
                    old(self).on_hit.wall_prev@,
                    old(self).config.0 as int,
                    final(self).players@,
                    pp_overlap@,
                    wall_overlap@,
                    #[trigger] events@[k],
                ),
    {
        let ghost ps0 = self.players@;
        let mut events: Vec<GameEvent> = Vec::new();
        let mut ev_pp = self.on_hit.player_hit_player(&mut self.players, pp_overlap);
        let ghost ps_after_pp = self.players@;
        let mut ev_wall = self.on_hit.player_hit_wall(&mut self.players, wall_overlap);
        let ghost ps_after_wall = self.players@;
        try_kill_by_zone(&mut self.players);
        let ghost ps_after_zone = self.players@;
        update_health(&mut self.players);
        let ghost ps_after_water = self.players@;
        let ghost bs_before = self.bubbles@;
        try_kill_bubbles(&mut self.bubbles);
        proof {
            assert forall|k: int| 0 <= k < self.bubbles@.len() implies (
            #[trigger] self.bubbles@[k]).wf() by {
                assert(bs_before.contains(self.bubbles@[k]));
                let t = choose|t: int| 0 <= t < bs_before.len() && bs_before[t] == self.bubbles@[k];
                assert(bs_before[t].wf());
            }
        }
        let mut ev_dep = try_kill_by_health(&mut self.players);
        events.append(&mut ev_pp);
        events.append(&mut ev_wall);
        events.append(&mut ev_dep);
        proof {
            assert forall|i: int| #![trigger self.players@[i]] 0 <= i < self.players@.len() implies {
                let p0 = ps0[i];
                let p1 = self.players@[i];
                p1.health <= p0.health && p1.pos == p0.pos && p1.rot == p0.rot && p1.ang_vel
                    == p0.ang_vel && p1.health == ps_after_water[i].health && p1.health
                    == post_tick_health(
                    ps0,
                    pp_overlap@,
                    old(self).on_hit.pp_prev@,
                    wall_overlap@,
                    old(self).on_hit.wall_prev@,
                    old(self).config.0 as int,
                    i,
                )
            } by {
                assert(ps_after_zone[i].pos == ps0[i].pos);
                lemma_wall_damage_same_vel(
                    ps0,
                    ps_after_pp,
                    wall_overlap@,
                    old(self).on_hit.wall_prev@,
                    i,
                    NUM_WALLS as int,
                );
                if ps0[i].pos.y < GLASS_BOTTOM_Y {
                    assert(!in_water(ps_after_zone[i].pos));
                }
            }
        }
        if matches!(self.phase, Phase::Active) {
            self.end_game_condition();
        } else {
            self.countdown_step();
        }
        events
    }

    /// Whether every round-scoped entity is gone and the round is exited.
    pub open spec fn torn_down(self) -> bool {
        &&& self.phase == Phase::Exited
        &&& self.bubbles@.len() == 0
        &&& forall|i: int| 0 <= i < self.players@.len() ==> !(#[trigger] self.players@[i]).present
    }

    /// External teardown: removes every round-scoped body and exits the
    /// round.  Safe to invoke from any state, and idempotent: tearing down a
    /// round that is already torn down changes nothing.
    pub fn on_game_exit(&mut self)
        requires
            old(self).wf(),
        ensures
            final(self).wf(),
            final(self).torn_down(),
            final(self).config == old(self).config,
            final(self).on_hit == old(self).on_hit,
            final(self).players@.len() == old(self).players@.len(),
            forall|i: int|
                0 <= i < final(self).players@.len() ==> {
                    let p0 = old(self).players@[i];
                    let p1 = #[trigger] final(self).players@[i];
                    &&& p1.pos == p0.pos
                    &&& p1.vel == p0.vel
                    &&& p1.ang_vel == p0.ang_vel
                    &&& p1.rot == p0.rot
                    &&& p1.health == p0.health
                    &&& p1.scale == p0.scale
                    &&& p1.density == p0.density
                    &&& !p1.present
                },
            old(self).torn_down() ==> {
                &&& final(self).players@ == old(self).players@
                &&& final(self).bubbles@ == old(self).bubbles@
                &&& final(self).phase == old(self).phase
            },
    {
        let ghost ps0 = self.players@;
        let mut i: usize = 0;
        while i < self.players.len()
            invariant
                i <= self.players@.len(),
                self.players@.len() == ps0.len(),
                ps0 == old(self).players@,
                self.bubbles == old(self).bubbles,
                self.on_hit == old(self).on_hit,
                self.config == old(self).config,
                self.phase == old(self).phase,
                forall|k: int| 0 <= k < ps0.len() ==> (#[trigger] ps0[k]).wf(),
                forall|k: int| i <= k < ps0.len() ==> self.players@[k] == ps0[k],
                forall|k: int| 0 <= k < ps0.len() ==> (#[trigger] self.players@[k]).wf(),
                forall|k: int|
                    0 <= k < i ==> {
                        let p0 = ps0[k];
                        let p1 = #[trigger] self.players@[k];
                        &&& p1.pos == p0.pos
                        &&& p1.vel == p0.vel
                        &&& p1.ang_vel == p0.ang_vel
                        &&& p1.rot == p0.rot
                        &&& p1.health == p0.health
                        &&& p1.scale == p0.scale
                        &&& p1.density == p0.density
                        &&& !p1.present
                    },
            decreases ps0.len() - i,
        {
            let mut p = self.players[i];
            p.present = false;
            self.players.set(i, p);
            i = i + 1;
        }
        self.bubbles.clear();
        self.phase = Phase::Exited;
        proof {
            if old(self).torn_down() {
                assert(self.players@ =~= old(self).players@);
                assert(self.bubbles@ =~= old(self).bubbles@);
            }
        }
    }
}

} // verus!
