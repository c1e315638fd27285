//! Round-level flows: configuration validation, seating, the win-condition
//! state machine, the end countdown, health monotonicity across ticks, the
//! zone-kill, the dissolve, and collision damage firing once per
//! collision-start.

use effervescents::environment::INITIAL_HEALTH;
use effervescents::environment::MENU_DURATION;
use effervescents::events::play_effervescent_sound;
use effervescents::events::GameEvent;
use effervescents::geometry::Rot;
use effervescents::geometry::Vec2I;
use effervescents::player::PlayerState;
use effervescents::player::DirInput;
use effervescents::damage::try_kill_by_health;
use effervescents::damage::try_kill_by_zone;
use effervescents::damage::update_health;
use effervescents::camera::update_camera;
use effervescents::camera::CameraState;
use effervescents::geometry::RectI;
use effervescents::round::BodyUpdate;
use effervescents::round::ConfigError;
use effervescents::round::Phase;
use effervescents::round::PlayerNumber;
use effervescents::round::Round;

fn v(x: i64, y: i64) -> Vec2I {
    Vec2I { x, y }
}

fn no_input(n: usize) -> Vec<DirInput> {
    vec![DirInput { up: false, left: false, right: false, down: false }; n]
}

/// Echo every body back to the round unchanged, as a motionless integrator
/// step would.
fn echo_updates(round: &Round) -> (Vec<BodyUpdate>, Vec<BodyUpdate>) {
    let players = round
        .players
        .iter()
        .map(|p| BodyUpdate { pos: p.pos, vel: p.vel, ang_vel: p.ang_vel, rot: p.rot })
        .collect();
    let bubbles = round
        .bubbles
        .iter()
        .map(|b| BodyUpdate { pos: b.pos, vel: b.vel, ang_vel: 0, rot: Rot { c: 1000, s: 0 } })
        .collect();
    (players, bubbles)
}

fn no_overlaps(n: usize) -> (Vec<bool>, Vec<bool>) {
    (vec![false; n * n], vec![false; n * 3])
}

#[test]
fn player_count_validation() {
    assert_eq!(PlayerNumber::validate(0), Err(ConfigError::InvalidPlayerCount));
    assert_eq!(PlayerNumber::validate(5), Err(ConfigError::InvalidPlayerCount));
    for n in 1..=4 {
        assert_eq!(PlayerNumber::validate(n), Ok(PlayerNumber(n)));
    }
    assert!(Round::new(0).is_err());
    assert!(Round::new(5).is_err());
}

#[test]
fn seating_layout() {
    let r1 = Round::new(1).unwrap();
    assert_eq!(r1.players[0].pos, v(0, 0));
    let r2 = Round::new(2).unwrap();
    assert_eq!(r2.players[0].pos.x, -200_000);
    assert_eq!(r2.players[1].pos.x, 200_000);
    let r3 = Round::new(3).unwrap();
    assert_eq!(r3.players[0].pos.x, -480_000);
    assert_eq!(r3.players[1].pos.x, 0);
    assert_eq!(r3.players[2].pos.x, 480_000);
    let r4 = Round::new(4).unwrap();
    assert_eq!(r4.players[0].pos.x, -533_333);
    assert_eq!(r4.players[1].pos.x, -133_333);
    assert_eq!(r4.players[2].pos.x, 133_333);
    assert_eq!(r4.players[3].pos.x, 533_333);
    for p in &r4.players {
        assert_eq!(p.health, INITIAL_HEALTH);
        assert_eq!(p.scale, 1000);
        assert!(p.present);
    }
    assert_eq!(r4.phase, Phase::Active);
    assert!(r4.bubbles.is_empty());
}

#[test]
fn water_tick_hits_submerged_only() {
    let mut players = vec![PlayerState::spawn(v(0, 0)), PlayerState::spawn(v(0, 700_000))];
    players[1].pos = v(0, 700_000);
    update_health(&mut players);
    assert_eq!(players[0].health, INITIAL_HEALTH - 100);
    assert_eq!(players[1].health, INITIAL_HEALTH);
    // Applies to depleted players too: health keeps falling in the liquid.
    players[0].health = 0;
    update_health(&mut players);
    assert_eq!(players[0].health, -100);
}

#[test]
fn zone_kill_below_floor() {
    let mut players = vec![PlayerState::spawn(v(0, 0)), PlayerState::spawn(v(0, 0))];
    players[0].pos = v(0, -800_001);
    players[1].pos = v(0, -800_000);
    try_kill_by_zone(&mut players);
    assert_eq!(players[0].health, 0);
    assert_eq!(players[1].health, INITIAL_HEALTH);
}

#[test]
fn dissolve_shrinks_then_despawns() {
    let mut players = vec![PlayerState::spawn(v(0, 0))];
    players[0].health = 0;
    players[0].vel = v(1000, -2000);
    let events = try_kill_by_health(&mut players);
    // First dissolving tick: one farewell event, then shrink, damp, lighten.
    assert_eq!(events.len(), 1);
    match events[0] {
        GameEvent::PlayerDepleted { player, farewell } => {
            assert_eq!(player, 0);
            assert!(farewell < 3);
        },
        _ => panic!("expected a depleted event"),
    }
    assert_eq!(players[0].scale, 995);
    assert_eq!(players[0].vel, v(950, -1900));
    assert_eq!(players[0].density, 3_333);
    assert!(players[0].present);
    // Later ticks stay silent and keep shrinking until the body despawns.
    let mut ticks = 1;
    while players[0].present {
        let more = try_kill_by_health(&mut players);
        assert!(more.is_empty());
        ticks += 1;
        assert!(ticks <= 200);
    }
    assert_eq!(ticks, 191);
    assert_eq!(players[0].scale, 45);
    // A despawned body is never processed again: despawn is idempotent.
    let after = players[0];
    try_kill_by_health(&mut players);
    assert_eq!(players[0], after);
}

#[test]
fn solo_round_ends_exactly_on_death() {
    let mut round = Round::new(1).unwrap();
    let (ppov, wov) = no_overlaps(1);
    // Alive: several ticks of water damage, no transition before depletion.
    for _ in 0..5 {
        round.post_physics(&ppov, &wov);
        assert_eq!(round.phase, Phase::Active);
    }
    assert_eq!(round.players[0].health, INITIAL_HEALTH - 500);
    // Drop the player below the arena floor: zone-killed, round ends now.
    let (mut pu, bu) = echo_updates(&round);
    pu[0].pos = v(0, -900_000);
    round.apply_integration(&pu, &bu);
    round.post_physics(&ppov, &wov);
    assert_eq!(round.players[0].health, 0);
    assert_eq!(round.phase, Phase::Ending { countdown: MENU_DURATION });
}

#[test]
fn trio_round_ends_at_one_survivor() {
    let mut round = Round::new(3).unwrap();
    let (ppov, wov) = no_overlaps(3);
    // Kill one of three: two remain, the round goes on.
    let (mut pu, bu) = echo_updates(&round);
    pu[0].pos = v(0, -900_000);
    round.apply_integration(&pu, &bu);
    round.post_physics(&ppov, &wov);
    assert_eq!(round.phase, Phase::Active);
    // Kill a second: one remains, the round ends.
    let (mut pu2, bu2) = echo_updates(&round);
    pu2[1].pos = v(0, -900_000);
    round.apply_integration(&pu2, &bu2);
    round.post_physics(&ppov, &wov);
    assert_eq!(round.phase, Phase::Ending { countdown: MENU_DURATION });
    // While ending, the condition is not re-evaluated; the countdown runs.
    round.post_physics(&ppov, &wov);
    assert_eq!(round.phase, Phase::Ending { countdown: MENU_DURATION - 1 });
}

#[test]
fn countdown_reaches_exited_exactly_at_zero() {
    let mut round = Round::new(2).unwrap();
    round.phase = Phase::Ending { countdown: MENU_DURATION };
    let mut expected = MENU_DURATION;
    while expected > 1 {
        round.countdown_step();
        expected -= 1;
        assert_eq!(round.phase, Phase::Ending { countdown: expected });
    }
    round.countdown_step();
    assert_eq!(round.phase, Phase::Exited);
    // Further ticks never resurrect the round.
    round.countdown_step();
    assert_eq!(round.phase, Phase::Exited);
}

#[test]
fn collision_damage_fires_once_over_ten_ticks() {
    let mut round = Round::new(2).unwrap();
    // Park both players in the air with known velocities so that the water
    // tick stays quiet and the speeds are exact.
    let (mut pu, bu) = echo_updates(&round);
    pu[0].pos = v(-100_000, 700_000);
    pu[0].vel = v(30_000, 40_000);
    pu[1].pos = v(100_000, 700_000);
    pu[1].vel = v(30_000, 40_000);
    round.apply_integration(&pu, &bu);
    // Sustained overlap across ten ticks: the ram damage (speed 50 over 10,
    // below the cap) is charged exactly once, on the collision start.
    let ppov = vec![false, true, true, false];
    let wov = vec![false; 6];
    let mut events_seen = 0;
    for tick in 0..10 {
        let events = round.post_physics(&ppov, &wov);
        events_seen += events.len();
        let expected = INITIAL_HEALTH - 5_000;
        assert_eq!(round.players[0].health, expected, "tick {}", tick);
        assert_eq!(round.players[1].health, expected, "tick {}", tick);
    }
    assert_eq!(events_seen, 1);
    assert_eq!(round.phase, Phase::Active);
}

#[test]
fn ram_damage_is_capped() {
    let mut round = Round::new(2).unwrap();
    let (mut pu, bu) = echo_updates(&round);
    pu[0].pos = v(-100_000, 700_000);
    pu[0].vel = v(300_000, 400_000);
    pu[1].pos = v(100_000, 700_000);
    pu[1].vel = v(300_000, 400_000);
    round.apply_integration(&pu, &bu);
    let ppov = vec![false, true, true, false];
    let wov = vec![false; 6];
    round.post_physics(&ppov, &wov);
    // Speed 500 units gives 50 health of raw ram damage, capped at 20.
    assert_eq!(round.players[0].health, INITIAL_HEALTH - 20_000);
    assert_eq!(round.players[1].health, INITIAL_HEALTH - 20_000);
}

#[test]
fn wall_damage_capped_and_edge_triggered() {
    let mut round = Round::new(1).unwrap();
    let (mut pu, bu) = echo_updates(&round);
    pu[0].pos = v(0, 700_000);
    pu[0].vel = v(300_000, 400_000);
    round.apply_integration(&pu, &bu);
    let ppov = vec![false];
    let wov = vec![true, false, false];
    let events = round.post_physics(&ppov, &wov);
    // Speed 500 over 20 is 25, capped at 20; one wall-impact event.
    assert_eq!(round.players[0].health, INITIAL_HEALTH - 20_000);
    assert_eq!(events.len(), 1);
    match events[0] {
        GameEvent::WallImpact { player, speed } => {
            assert_eq!(player, 0);
            assert_eq!(speed, 500_000);
        },
        _ => panic!("expected a wall impact"),
    }
    // Sustained contact: no further charge.
    round.post_physics(&ppov, &wov);
    assert_eq!(round.players[0].health, INITIAL_HEALTH - 20_000);
}

#[test]
fn damage_sources_stack_in_one_tick() {
    // Ram damage, wall damage and the water tick are independent decrements:
    // all three can hit the same player in the same tick.
    let mut round = Round::new(2).unwrap();
    let (mut pu, bu) = echo_updates(&round);
    pu[0].vel = v(30_000, 40_000);
    pu[1].vel = v(30_000, 40_000);
    round.apply_integration(&pu, &bu);
    let ppov = vec![false, true, true, false];
    let wov = vec![true, false, false, false, false, false];
    round.post_physics(&ppov, &wov);
    // Player one: 5 of ram damage, 2.5 of wall damage, 0.1 of water tick.
    assert_eq!(round.players[0].health, INITIAL_HEALTH - 5_000 - 2_500 - 100);
    // Player two touched no wall: ram damage and the water tick only.
    assert_eq!(round.players[1].health, INITIAL_HEALTH - 5_000 - 100);
}

#[test]
fn health_monotonic_across_full_ticks() {
    let mut round = Round::new(2).unwrap();
    let inputs = vec![DirInput { up: true, left: false, right: false, down: false }; 2];
    let (ppov, wov) = no_overlaps(2);
    let mut last = [INITIAL_HEALTH, INITIAL_HEALTH];
    for _ in 0..5 {
        round.pre_physics(&inputs);
        let (pu, bu) = echo_updates(&round);
        round.apply_integration(&pu, &bu);
        round.post_physics(&ppov, &wov);
        for i in 0..2 {
            assert!(round.players[i].health <= last[i]);
            last[i] = round.players[i].health;
        }
    }
    // Submerged and thrusting up: 600 of drive wear and 100 of water tick
    // per tick, exactly.
    assert_eq!(round.players[0].health, INITIAL_HEALTH - 5 * 700);
    assert_eq!(round.players[1].health, INITIAL_HEALTH - 5 * 700);
}

#[test]
fn idle_tick_charges_water_only() {
    let mut round = Round::new(1).unwrap();
    let inputs = no_input(1);
    let (ppov, wov) = no_overlaps(1);
    round.pre_physics(&inputs);
    // Idle but submerged: the ambient fizz bubble is still emitted.
    assert_eq!(round.bubbles.len(), 1);
    let (pu, bu) = echo_updates(&round);
    round.apply_integration(&pu, &bu);
    round.post_physics(&ppov, &wov);
    assert_eq!(round.players[0].health, INITIAL_HEALTH - 100);
}

#[test]
fn bubbles_culled_when_leaving_liquid() {
    let mut round = Round::new(1).unwrap();
    let inputs = no_input(1);
    round.pre_physics(&inputs);
    assert_eq!(round.bubbles.len(), 1);
    let (ppov, wov) = no_overlaps(1);
    // Still inside: survives the tick.
    let (pu, bu) = echo_updates(&round);
    round.apply_integration(&pu, &bu);
    round.post_physics(&ppov, &wov);
    assert_eq!(round.bubbles.len(), 1);
    // The integrator carries it above the surface: culled within one tick.
    let (pu2, mut bu2) = echo_updates(&round);
    bu2[0].pos = v(0, 650_000);
    round.apply_integration(&pu2, &bu2);
    round.post_physics(&ppov, &wov);
    assert_eq!(round.bubbles.len(), 0);
}

#[test]
fn teardown_is_idempotent() {
    let mut round = Round::new(3).unwrap();
    let inputs = no_input(3);
    round.pre_physics(&inputs);
    round.on_game_exit();
    assert_eq!(round.phase, Phase::Exited);
    assert!(round.bubbles.is_empty());
    assert!(round.players.iter().all(|p| !p.present));
    let snapshot = round.players.clone();
    round.on_game_exit();
    assert_eq!(round.phase, Phase::Exited);
    assert!(round.bubbles.is_empty());
    assert_eq!(round.players, snapshot);
}

#[test]
fn zone_kill_never_raises_negative_health() {
    // A dissolving player that sinks below the floor keeps its negative
    // health: the kill clamps, never regenerates.
    let mut players = vec![PlayerState::spawn(v(0, 0))];
    players[0].health = -100;
    players[0].pos = v(0, -900_000);
    try_kill_by_zone(&mut players);
    assert_eq!(players[0].health, -100);
}

#[test]
fn simultaneous_collision_starts_give_one_event_each() {
    // Two pairs begin overlapping the same tick: one impact event per pair,
    // none repeated.
    let mut round = Round::new(3).unwrap();
    let (mut pu, bu) = echo_updates(&round);
    for u in pu.iter_mut() {
        u.pos.y = 700_000;
        u.vel = v(30_000, 40_000);
    }
    round.apply_integration(&pu, &bu);
    // Overlaps: (0,1) and (0,2), symmetric.
    let ppov = vec![
        false, true, true,
        true, false, false,
        true, false, false,
    ];
    let wov = vec![false; 9];
    let events = round.post_physics(&ppov, &wov);
    assert_eq!(events.len(), 2);
    assert!(matches!(events[0], GameEvent::PlayerImpact { first: 0, second: 1, .. }));
    assert!(matches!(events[1], GameEvent::PlayerImpact { first: 0, second: 2, .. }));
    // Player one was hit by both others, the others by player one alone.
    assert_eq!(round.players[0].health, INITIAL_HEALTH - 10_000);
    assert_eq!(round.players[1].health, INITIAL_HEALTH - 5_000);
    assert_eq!(round.players[2].health, INITIAL_HEALTH - 5_000);
}

#[test]
fn two_wall_contacts_give_two_events() {
    let mut round = Round::new(1).unwrap();
    let (mut pu, bu) = echo_updates(&round);
    pu[0].pos = v(0, 700_000);
    pu[0].vel = v(30_000, 40_000);
    round.apply_integration(&pu, &bu);
    // Both side walls touched anew the same tick: one event per wall, and
    // the damage charged per wall contact.
    let ppov = vec![false];
    let wov = vec![false, true, true];
    let events = round.post_physics(&ppov, &wov);
    assert_eq!(events.len(), 2);
    for e in &events {
        assert!(matches!(e, GameEvent::WallImpact { player: 0, speed: 50_000 }));
    }
    assert_eq!(round.players[0].health, INITIAL_HEALTH - 2 * 2_500);
    // Sustained contact with both: no further events.
    let more = round.post_physics(&ppov, &wov);
    assert_eq!(more.len(), 0);
}

#[test]
fn submerged_loop_notifies_on_transitions_only() {
    let players = vec![PlayerState::spawn(v(0, 0)), PlayerState::spawn(v(0, 0))];
    let mut airborne = players.clone();
    airborne[1].pos = v(0, 700_000);
    let mut playing = vec![false, false];
    // Both start silent; player one enters the liquid, player two is in air.
    let events = play_effervescent_sound(&airborne, &mut playing);
    assert_eq!(events.len(), 1);
    assert!(matches!(events[0], GameEvent::SubmergedLoop { player: 0, on: true }));
    assert_eq!(playing, vec![true, false]);
    // Steady state: no notifications.
    let none = play_effervescent_sound(&airborne, &mut playing);
    assert!(none.is_empty());
    // Player one leaves, player two falls in: one notification each.
    let mut swapped = players.clone();
    swapped[0].pos = v(0, 700_000);
    let both = play_effervescent_sound(&swapped, &mut playing);
    assert_eq!(both.len(), 2);
    assert!(matches!(both[0], GameEvent::SubmergedLoop { player: 0, on: false }));
    assert!(matches!(both[1], GameEvent::SubmergedLoop { player: 1, on: true }));
    assert_eq!(playing, vec![false, true]);
}

#[test]
fn camera_zoom_never_leaves_bounds() {
    let view = RectI::new(-1_000_000, -1_000_000, 1_000_000, 1_000_000);
    // Extreme spread: players flung to the fixed-point position limits.
    let mut far = vec![PlayerState::spawn(v(0, 0)), PlayerState::spawn(v(0, 0))];
    far[0].pos = v(-1_000_000_000_000, -1_000_000_000_000);
    far[1].pos = v(1_000_000_000_000, 1_000_000_000_000);
    let mut cam = CameraState::reset();
    for _ in 0..100 {
        update_camera(&mut cam, view, &far);
        assert!(100 <= cam.zoom && cam.zoom <= 20_000);
    }
    // Everyone gone: framing the bare arena crashes nothing and keeps the
    // zoom clamped from below.
    let nobody: Vec<PlayerState> = Vec::new();
    let wide = RectI::new(-5_000_000, -5_000_000, 5_000_000, 5_000_000);
    for _ in 0..2_000 {
        update_camera(&mut cam, wide, &nobody);
        assert!(100 <= cam.zoom && cam.zoom <= 20_000);
    }
    assert_eq!(cam.zoom, 100);
}

#[test]
fn camera_zooms_out_when_interest_escapes() {
    let mut cam = CameraState::reset();
    let view = RectI::new(-1_000_000, -1_000_000, 1_000_000, 1_000_000);
    let nobody: Vec<PlayerState> = Vec::new();
    // The inflated arena rectangle spills over this view: one step out.
    update_camera(&mut cam, view, &nobody);
    assert_eq!(cam.zoom, 1010);
    assert_eq!(cam.pos, v(0, 0));
}
