//! The arena: geometry constants shared by every component, and the liquid
//! region membership test.
//!
//! All lengths are milli units (one unit = 1000).  The liquid fills the glass
//! from its bottom up to the water level; the submerged band's upper bound
//! keeps a small safety margin below the rendered surface.

use vstd::prelude::*;

verus! {

use crate::geometry::RectI;
use crate::geometry::Vec2I;

// Arena geometry.
pub const GLASS_RADIUS: i64 = 800_000;

pub const GLASS_HEIGHT: i64 = 1_600_000;

pub const WATER_LEVEL: i64 = 1_400_000;

pub const GLASS_WIDTH: i64 = 30_000;

/// Safety margin subtracted from the top of the submerged band.
pub const SURFACE_MARGIN: i64 = 10_000;

/// Highest y that still counts as submerged: half the water level, minus
/// half the headspace between glass top and water level, minus the margin.
pub const WATER_SURFACE_Y: i64 = 590_000;

/// Lowest y of the playable arena (minus half the glass height); below it a
/// player is zone-killed.
pub const GLASS_BOTTOM_Y: i64 = -800_000;

/// Highest y of the arena (half the glass height).
pub const GLASS_TOP_Y: i64 = 800_000;

// Physics.
pub const GRAVITY: i64 = 9_800;

pub const GRAVITY_SCALE: i64 = 12_000;

pub const FLUID_DENSITY: i64 = 6_500;

/// Milli fraction of velocity lost per tick in water.
pub const DRAG_WATER_COEFFICIENT: i64 = 10;

/// Milli fraction of velocity lost per tick in air.
pub const DRAG_AIR_COEFFICIENT: i64 = 3;

// Tablet (player body) data.
pub const CACHET_DENSITY: i64 = 10_000;

pub const CACHET_WIDTH: i64 = 128_000;

pub const CACHET_HEIGHT: i64 = 25_600;

/// Tablet volume: width times height, in milli square units.
pub const CACHET_VOLUME: i64 = 3_276_800;

// Bubbles.
pub const BUBBLE_RADIUS: i64 = 2_000;

/// Bubble volume: radius squared times two pi, in milli.
pub const BUBBLE_VOLUME: i64 = 25_133;

pub const BUBBLE_DENSITY: i64 = 100;

/// Bubble mass: volume times bubble density, rescaled to milli, truncated.
/// Visual-only bubbles carry no collider to derive a mass from, so the same
/// value is assigned to them directly.
pub const BUBBLE_MASS: i64 = 2_513;

pub const BUBBLE_EMISSION_SPEED: i64 = 100_000;

// Thrust.
pub const TURBO_FORCE: i64 = 30_000_000_000;

pub const NB_TURBO_PARTICLE: usize = 5;

// Camera.
pub const CAM_ELASTICITY: i64 = 950;

pub const CAM_ZOOM_SPEED: i64 = 10;

pub const CAM_ZOOM_MIN: i64 = 100;

pub const CAM_ZOOM_MAX: i64 = 20_000;

pub const CAM_BUFFER: i64 = 150;

// Health.
pub const INITIAL_HEALTH: i64 = 1_000_000;

pub const GLOBAL_DAMAGE_SCALE: i64 = 100;

pub const WATER_TICK_DAMAGE: i64 = 1_000;

pub const TURBO_TICK_DAMAGE: i64 = 3_000;

/// Hard floor that health is clamped at; unreachable in ordinary play, it
/// bounds the value so that every decrement stays within machine limits.
pub const HEALTH_FLOOR: i64 = -1_000_000_000;

/// Impact speed a wall collision must exceed to cost health.
pub const WALL_IMPACT_THRESHOLD: i64 = 0;

/// Milli shrink of a depleted player's scale per tick.
pub const DECAY_SCALE_STEP: i64 = 5;

/// Milli fraction of velocity a depleted player keeps per tick.
pub const DECAY_VEL_KEEP: i64 = 950;

/// Density of a dissolving tablet: a third of the full density, truncated.
pub const DECAY_DENSITY: i64 = 3_333;

/// Scale below which a dissolving player's body is destroyed.
pub const DESPAWN_SCALE: i64 = 50;

/// Ticks the end-of-round display stays up before the round exits.
pub const MENU_DURATION: u32 = 300;

/// The liquid region: a rectangular band across the glass, from the arena
/// bottom up to the water surface minus the safety margin.
pub open spec fn in_water(p: Vec2I) -> bool {
    &&& p.y <= WATER_SURFACE_Y
    &&& p.y >= GLASS_BOTTOM_Y
    &&& p.x >= -GLASS_RADIUS
    &&& p.x <= GLASS_RADIUS
}

/// Pure membership test of the liquid region; every component that needs the
/// region geometry goes through this one test.
pub fn is_in_water(p: Vec2I) -> (r: bool)
    ensures
        r == in_water(p),
{
    p.y <= WATER_SURFACE_Y && p.y >= GLASS_BOTTOM_Y && p.x >= -GLASS_RADIUS && p.x <= GLASS_RADIUS
}

/// The static glass bodies bounding the arena: the bottom slab across the
/// glass, and the left and right walls over its full height, each as thick
/// as the glass width.
pub open spec fn wall_rect(w: int) -> RectI {
    if w == 0 {
        RectI {
            min_x: ((-GLASS_RADIUS) as i64),
            min_y: ((-815_000) as i64),
            max_x: GLASS_RADIUS,
            max_y: ((-785_000) as i64),
        }
    } else if w == 1 {
        RectI {
            min_x: ((-815_000) as i64),
            min_y: GLASS_BOTTOM_Y,
            max_x: ((-785_000) as i64),
            max_y: GLASS_TOP_Y,
        }
    } else {
        RectI { min_x: 785_000, min_y: GLASS_BOTTOM_Y, max_x: 815_000, max_y: GLASS_TOP_Y }
    }
}

/// The collision geometry of the arena, created once on round start:
/// immovable bodies, collision partners for wall damage, never destroyed
/// during a round.
pub fn setup_glasses() -> (walls: Vec<RectI>)
    ensures
        walls@.len() == 3,
        forall|w: int| 0 <= w < 3 ==> #[trigger] walls@[w] == wall_rect(w),
{
    let mut walls: Vec<RectI> = Vec::new();
    walls.push(
        RectI { min_x: -GLASS_RADIUS, min_y: -815_000, max_x: GLASS_RADIUS, max_y: -785_000 },
    );
    walls.push(RectI { min_x: -815_000, min_y: GLASS_BOTTOM_Y, max_x: -785_000, max_y: GLASS_TOP_Y });
    walls.push(RectI { min_x: 785_000, min_y: GLASS_BOTTOM_Y, max_x: 815_000, max_y: GLASS_TOP_Y });
    walls
}

} // verus!
