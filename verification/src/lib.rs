//! Core simulation engine for a 2D vertical shoot-'em-up: entity state and
//! per-frame updates, a difficulty-scaled spawner, axis-aligned collision
//! detection with type-keyed combat resolution, and end-of-frame culling.
//!
//! All world coordinates are integers in micro-pixels (1 pixel = 1_000_000
//! micro-pixels) and all velocities are integers in milli-pixels per second,
//! so that a frame's displacement `velocity * delta_ms` is exact and linear
//! motion is independent of how time is divided into frames. Angles are in
//! milli-radians.

use vstd::prelude::*;

pub mod collision;
pub mod entity;
pub mod frame;
pub mod geom;
pub mod powerup;
pub mod rng;
pub mod scores;
pub mod spawner;
pub mod state;
pub mod trig;
pub mod util;

verus! {

/// Micro-pixels per pixel.
pub const MICRO: i64 = 1_000_000;

/// Positions are kept within this many micro-pixels of the origin
/// (one billion pixels); translations saturate at the limit so that
/// coordinate arithmetic can never overflow.
pub const POS_LIMIT: i64 = 1_000_000_000_000_000;

/// Upper bound on the magnitude of any velocity component, in
/// milli-pixels per second (a hundred thousand pixels per second).
pub const VEL_LIMIT: i64 = 100_000_000;

/// Upper bound on a single frame's delta time in milliseconds (a little
/// under three hours; a larger delta is a clock fault, not a frame).
pub const DELTA_LIMIT: u64 = 10_000_000;

/// An entity's age counter saturates here (about thirty thousand years).
pub const TIMER_CAP: u64 = 1_000_000_000_000_000;

/// Hit points saturate at this floor when damage is applied, so that
/// repeated hits on an already-dead entity can never underflow.
pub const HP_MIN: i64 = -1_000_000_000_000;

/// Upper bound on any entity's hit points.
pub const HP_LIMIT: i64 = 1_000_000;

/// Upper bound on any entity's collision damage.
pub const DAMAGE_LIMIT: i64 = 1_000;

/// A bounded lifetime counter saturates at this floor.
pub const LIFETIME_MIN: i64 = -1_000_000_000_000_000;

/// Upper bound on a bounded lifetime, in milliseconds.
pub const LIFETIME_LIMIT: i64 = 1_000_000_000;

/// Upper bound on any fire or spawn cooldown, in milliseconds.
pub const COOLDOWN_LIMIT: i64 = 1_000_000_000;

/// Upper bound on a collision box offset or size, in micro-pixels
/// (one thousand pixels).
pub const BOUNDS_LIMIT: i64 = 1_000_000_000;

/// Upper bound on the playfield's width and height, in pixels.
pub const WINDOW_LIMIT: u32 = 100_000;

/// Upper bound on the number of live entities the simulation will hold.
pub const ENTITY_CAP: usize = 100_000;

/// Milliseconds a boss waits between bullet rings.
pub const BOSS_BULLET_COOLDOWN: i64 = 170;

/// Number of bullets in a boss's radial ring.
pub const BOSS_BULLET_NUMBER: i64 = 4;

/// Milliseconds an enemy waits between shots.
pub const ENEMY_BULLET_COOLDOWN: i64 = 4_000;

/// Enemy bullet speed in milli-pixels per second (400 pixels per second).
pub const ENEMY_BULLET_SPEED: i64 = 400_000;

/// Milliseconds an enemy lives before expiring on its own.
pub const ENEMY_LIFETIME: i64 = 100_000;

/// Highest gun level a player can reach through upgrades.
pub const MAX_UPGRADE_LEVEL: u32 = 12;

/// Milliseconds the player waits between shots.
pub const PLAYER_BULLET_COOLDOWN: i64 = 200;

/// Player bullet speed in milli-pixels per second (600 pixels per second).
pub const PLAYER_BULLET_SPEED: i64 = 600_000;

/// Milliseconds a screen-shutoff death effect stays on screen.
pub const SHUTOFF_LIFETIME: i64 = 500;

/// Milliseconds a splat death effect stays on screen.
pub const SPLAT_LIFETIME: i64 = 500;

/// The difficulty factor ramps from 1.0 down to its floor over this many
/// seconds of play; the match is won shortly after.
pub const SECONDS_UNTIL_MAX_DIFFICULTY: u64 = 480;

} // verus!
