//! Component-level checks: the liquid membership test at its exact
//! boundaries, the force model's numbers, thrust, bubbles, the HUD formulas
//! and the event channels.

use effervescents::bubbles::spawn_bubble;
use effervescents::bubbles::try_kill_bubbles;
use effervescents::bubbles::bubble_emiter;
use effervescents::bubbles::BubbleState;
use effervescents::environment::is_in_water;
use effervescents::environment::setup_glasses;
use effervescents::environment::CACHET_VOLUME;
use effervescents::environment::INITIAL_HEALTH;
use effervescents::events::GameEvent;
use effervescents::events::GlassChannel;
use effervescents::events::PlayerChannel;
use effervescents::fixed::clamp_i64;
use effervescents::fixed::div_milli;
use effervescents::fixed::half;
use effervescents::fixed::isqrt;
use effervescents::forces::drag_force;
use effervescents::geometry::cross_milli;
use effervescents::geometry::rotate;
use effervescents::geometry::speed_of;
use effervescents::geometry::RectI;
use effervescents::geometry::Rot;
use effervescents::geometry::Vec2I;
use effervescents::hud::GameHudPlugin;
use effervescents::hud::WinnerDisplay;
use effervescents::player::DirInput;
use effervescents::player::PlayerState;
use effervescents::thrust::use_turbo;

fn v(x: i64, y: i64) -> Vec2I {
    Vec2I { x, y }
}

fn still_player(pos: Vec2I) -> PlayerState {
    PlayerState::spawn(pos)
}

#[test]
fn water_band_boundaries() {
    // Exactly on the surface margin line: submerged.
    assert!(is_in_water(v(0, 590_000)));
    // One milli unit above: out.
    assert!(!is_in_water(v(0, 590_001)));
    // Exactly on the arena floor: submerged.
    assert!(is_in_water(v(0, -800_000)));
    assert!(!is_in_water(v(0, -800_001)));
    // Lateral extent, both edges inclusive.
    assert!(is_in_water(v(-800_000, 0)));
    assert!(is_in_water(v(800_000, 0)));
    assert!(!is_in_water(v(-800_001, 0)));
    assert!(!is_in_water(v(800_001, 0)));
    // A plain interior point and a point in the headspace.
    assert!(is_in_water(v(123_456, -500_000)));
    assert!(!is_in_water(v(0, 700_000)));
}

#[test]
fn submerged_net_force_is_upward() {
    // A tablet at rest, fully submerged: the force model's one vertical
    // contribution is buoyancy, strictly upward.
    let mut vel = v(0, 0);
    let mut ang = 0i64;
    let out = drag_force(v(0, 0), CACHET_VOLUME, 32_768_000, &mut vel, &mut ang);
    assert_eq!(out.force.x, 0);
    assert_eq!(out.force.y, 208_732_160);
    assert!(out.force.y > 0);
    assert_eq!(out.torque, 0);
    assert_eq!(vel, v(0, 0));
    assert_eq!(ang, 0);
}

#[test]
fn water_drag_damps_velocities() {
    let mut vel = v(1000, -1000);
    let mut ang = 500i64;
    drag_force(v(0, 0), CACHET_VOLUME, 32_768_000, &mut vel, &mut ang);
    assert_eq!(vel, v(990, -990));
    assert_eq!(ang, 495);
}

#[test]
fn airborne_gravity_is_downward() {
    let mut vel = v(1000, 0);
    let mut ang = 1000i64;
    let out = drag_force(v(0, 700_000), CACHET_VOLUME, 32_768_000, &mut vel, &mut ang);
    assert_eq!(out.force.x, 0);
    assert_eq!(out.force.y, -11_560_550_400);
    assert_eq!(vel, v(997, 0));
    assert_eq!(ang, 997);
}

#[test]
fn turbo_up_charges_two_branches() {
    let mut p = still_player(v(0, 0));
    let input = DirInput { up: true, left: false, right: false, down: false };
    let out = use_turbo(input, &mut p);
    // Up drives both lateral branches: two costs, symmetric torques cancel.
    assert_eq!(p.health, INITIAL_HEALTH - 600);
    assert_eq!(out.force.x, 0);
    assert_eq!(out.force.y, 60_000_000_000);
    assert_eq!(out.torque, 0);
}

#[test]
fn turbo_right_applies_off_centre_torque() {
    let mut p = still_player(v(0, 0));
    let input = DirInput { up: false, left: false, right: true, down: false };
    let out = use_turbo(input, &mut p);
    assert_eq!(p.health, INITIAL_HEALTH - 300);
    assert_eq!(out.force.y, 30_000_000_000);
    assert_eq!(out.torque, -960_000_000_000);
}

#[test]
fn turbo_ignored_out_of_water() {
    let mut p = still_player(v(0, 700_000));
    let before = p;
    let input = DirInput { up: true, left: true, right: true, down: true };
    let out = use_turbo(input, &mut p);
    assert_eq!(p, before);
    assert_eq!(out.force.x, 0);
    assert_eq!(out.force.y, 0);
    assert_eq!(out.torque, 0);
}

#[test]
fn turbo_ignored_when_depleted() {
    let mut p = still_player(v(0, 0));
    p.health = 0;
    let before = p;
    let input = DirInput { up: true, left: false, right: false, down: false };
    let out = use_turbo(input, &mut p);
    assert_eq!(p, before);
    assert_eq!(out.force.y, 0);
}

#[test]
fn bubble_velocity_is_direction_times_speed() {
    let b = spawn_bubble(v(5, 6), v(0, -1000), 100_000, true);
    assert_eq!(b.pos, v(5, 6));
    assert_eq!(b.vel, v(0, -100_000));
    assert!(b.collidable);
    let merged = spawn_bubble(v(5, 6), v(0, -1000), 0, false);
    assert_eq!(merged.vel, v(0, 0));
    assert!(!merged.collidable);
}

#[test]
fn emitter_counts_per_branch() {
    let p = still_player(v(0, 0));
    let none = DirInput { up: false, left: false, right: false, down: false };
    assert_eq!(bubble_emiter(&p, none).len(), 1);
    let down = DirInput { up: false, left: false, right: false, down: true };
    assert_eq!(bubble_emiter(&p, down).len(), 10);
    let up = DirInput { up: true, left: false, right: false, down: false };
    assert_eq!(bubble_emiter(&p, up).len(), 9);
    let right = DirInput { up: false, left: false, right: true, down: false };
    assert_eq!(bubble_emiter(&p, right).len(), 5);
}

#[test]
fn emitter_silent_out_of_water_or_dead() {
    let airborne = still_player(v(0, 700_000));
    let held = DirInput { up: true, left: true, right: true, down: true };
    assert_eq!(bubble_emiter(&airborne, held).len(), 0);
    let mut dead = still_player(v(0, 0));
    dead.health = 0;
    assert_eq!(bubble_emiter(&dead, held).len(), 0);
}

#[test]
fn emitter_burst_geometry() {
    // Unrotated player: a right-branch burst sits at body height -13 units,
    // lateral offset inside [-60, 4) units, expelled straight down at the
    // emission speed when collidable and drifting when merged.
    let p = still_player(v(100_000, -100_000));
    let right = DirInput { up: false, left: false, right: true, down: false };
    let spawned = bubble_emiter(&p, right);
    assert_eq!(spawned.len(), 5);
    for b in &spawned[0..4] {
        assert_eq!(b.pos.y - p.pos.y, -13_000);
        let ox = b.pos.x - p.pos.x;
        assert!(-60_000 <= ox && ox < 4_000);
        // Each bubble draws its own collidability; its speed follows it.
        if b.collidable {
            assert_eq!(b.vel, v(0, -100_000));
        } else {
            assert_eq!(b.vel, v(0, 0));
        }
    }
    // The trailing ambient bubble: anywhere on the face, no collider, still.
    let amb = spawned[4];
    assert!(!amb.collidable);
    assert_eq!(amb.vel, v(0, 0));
    let ox = amb.pos.x - p.pos.x;
    let oy = amb.pos.y - p.pos.y;
    assert!(-60_000 <= ox && ox < 60_000);
    assert!(-12_000 <= oy && oy < 12_000);
}

#[test]
fn cull_keeps_inside_removes_outside() {
    let inside = BubbleState { pos: v(0, 0), vel: v(0, 0), collidable: false };
    let inside2 = BubbleState { pos: v(500_000, -700_000), vel: v(1, 2), collidable: true };
    let outside = BubbleState { pos: v(0, 600_001), vel: v(0, 0), collidable: false };
    let mut bubbles = vec![inside, outside, inside2];
    try_kill_bubbles(&mut bubbles);
    assert_eq!(bubbles.len(), 2);
    assert_eq!(bubbles[0], inside);
    assert_eq!(bubbles[1], inside2);
    // Still inside: never culled, tick after tick.
    try_kill_bubbles(&mut bubbles);
    try_kill_bubbles(&mut bubbles);
    assert_eq!(bubbles.len(), 2);
}

#[test]
fn hud_bar_width_formula() {
    let mut players = vec![still_player(v(0, 0)), still_player(v(0, 0)), still_player(v(0, 0))];
    players[1].health = 500_000;
    players[2].health = -5;
    let widths = GameHudPlugin::update_ui(&players);
    assert_eq!(widths, vec![100_000, 56_500, 13_000]);
}

#[test]
fn winner_display_selection() {
    let mut players = vec![still_player(v(0, 0)), still_player(v(0, 0)), still_player(v(0, 0))];
    players[0].health = 0;
    players[1].health = -3;
    players[2].health = 5;
    assert_eq!(GameHudPlugin::end_game_display(&players), WinnerDisplay::Winner(2));
    players[2].health = 0;
    assert_eq!(GameHudPlugin::end_game_display(&players), WinnerDisplay::Draw);
}

#[test]
fn event_channel_routing() {
    let wall = GameEvent::WallImpact { player: 0, speed: 1000 };
    let clash = GameEvent::PlayerImpact { first: 0, second: 1, first_speed: 5, second_speed: 6 };
    let glass = GlassChannel;
    let pc = PlayerChannel;
    assert!(glass.accepts(&wall));
    assert!(!glass.accepts(&clash));
    assert!(pc.accepts(&clash));
    assert!(!pc.accepts(&wall));
}

#[test]
fn speed_magnitude() {
    assert_eq!(speed_of(v(30_000, 40_000)), 50_000);
    assert_eq!(speed_of(v(-30_000, -40_000)), 50_000);
    assert_eq!(speed_of(v(0, 0)), 0);
    assert_eq!(speed_of(v(0, -7)), 7);
}

#[test]
fn integer_square_root() {
    assert_eq!(isqrt(0), 0);
    assert_eq!(isqrt(15), 3);
    assert_eq!(isqrt(16), 4);
    assert_eq!(isqrt(99), 9);
    assert_eq!(isqrt(u64::MAX), 4_294_967_295);
}

#[test]
fn fixed_point_truncates_toward_zero() {
    assert_eq!(div_milli(1500), 1);
    assert_eq!(div_milli(-1500), -1);
    assert_eq!(div_milli(999), 0);
    assert_eq!(div_milli(-999), 0);
    assert_eq!(half(-3), -1);
    assert_eq!(half(3), 1);
    assert_eq!(clamp_i64(5, 0, 3), 3);
    assert_eq!(clamp_i64(-5, 0, 3), 0);
    assert_eq!(clamp_i64(2, 0, 3), 2);
}

#[test]
fn rotation_action() {
    let quarter = Rot { c: 0, s: 1000 };
    assert_eq!(rotate(quarter, v(1000, 0)), v(0, 1000));
    assert_eq!(rotate(quarter, v(0, -1000)), v(1000, 0));
    let ident = Rot { c: 1000, s: 0 };
    assert_eq!(rotate(ident, v(123, -456)), v(123, -456));
    assert_eq!(cross_milli(v(-32_000, -13_000), v(0, 30_000_000_000)), -960_000_000_000);
}

#[test]
fn arena_wall_geometry() {
    // Bottom slab across the glass, then the two side walls over its full
    // height, each as thick as the glass width.
    let walls = setup_glasses();
    assert_eq!(walls.len(), 3);
    assert_eq!(walls[0], RectI::new(-800_000, -815_000, 800_000, -785_000));
    assert_eq!(walls[1], RectI::new(-815_000, -800_000, -785_000, 800_000));
    assert_eq!(walls[2], RectI::new(785_000, -800_000, 815_000, 800_000));
}

#[test]
fn rect_operations() {
    let r = RectI::new(-10, -20, 10, 20);
    let grown = r.union_point(v(50, 0));
    assert_eq!(grown.max_x, 50);
    assert_eq!(grown.min_x, -10);
    let inflated = r.inflate(5);
    assert_eq!(inflated.min_x, -15);
    assert_eq!(inflated.max_y, 25);
    assert!(RectI::new(-100, -100, 100, 100).contains(r));
    assert!(!r.contains(RectI::new(-100, -100, 100, 100)));
}
