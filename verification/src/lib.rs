//! Verified core of a local-multiplayer liquid-arena game: floating rigid
//! tablets are pushed around a water-filled glass by player thrust, lose
//! health to drive wear, water exposure and collisions, and the last one
//! afloat wins.  The engine, rendering, audio playback and menus are
//! collaborators outside this crate; the per-tick force model, damage model,
//! bubble lifecycle, camera framing and round state machine live here, in
//! milli fixed-point integers, with their behaviour stated in contracts.

pub mod bubbles;
pub mod camera;
pub mod damage;
pub mod environment;
pub mod events;
pub mod fixed;
pub mod forces;
pub mod geometry;
pub mod hud;
pub mod laws;
pub mod on_hit;
pub mod player;
pub mod rng;
pub mod round;
pub mod thrust;
