//! Simulation core of a top-down arcade delivery game.
//!
//! A player collects numbered letters that appear on a bounded map and
//! delivers each to the house bearing the matching number, under time
//! pressure and a carrying-capacity limit, until the ground fills with
//! undelivered letters and the run ends.
//!
//! All world coordinates are integers counting thousandths of a world
//! tile ("milli-units"), and all times are integers counting
//! milliseconds.  Rendering, audio and window plumbing are outside this
//! crate: it exposes the per-frame state a renderer needs and reports
//! which audio cues fired during each update.

use vstd::prelude::*;

pub mod engine;
pub mod entities;
pub mod game;
pub mod geom;
pub mod player;
pub mod rng;
pub mod spawn;
pub mod state;

verus! {

/// One world tile, in milli-units.
pub const UNIT_MILLI: i64 = 1000;

/// Width of the level, in milli-units (30 tiles).
pub const LEVEL_WIDTH_MILLI: i64 = 30000;

/// Height of the level, in milli-units (20 tiles).
pub const LEVEL_HEIGHT_MILLI: i64 = 20000;

/// Number of world tiles visible across the surface width, in milli-units.
pub const TILES_ON_WIDTH_MILLI: i64 = 15000;

/// Initial interval between letter spawns, in milliseconds (30 time-units).
pub const SPAWN_TIME_MS: u64 = 30000;

/// Number of houses on the map; letter numbers run from 1 to this value.
pub const HOUSE_COUNT: u32 = 6;

/// Capacity of the holding set; picking up more evicts the oldest item.
pub const MAX_HOLDING: usize = 4;

/// Player speed: 7 world units per second equals 7 milli-units per millisecond.
pub const PLAYER_SPEED_MILLI_PER_MS: i64 = 7;

/// Ground letters at or above this count trigger game over.
pub const MAX_LETTERS_ON_GROUND: usize = 10;

/// Re-pickup embargo after a forced drop, in milliseconds (2 time-units).
pub const EMBARGO_MS: u64 = 2000;

/// Pickup proximity: both screen axes within 48 px, i.e.
/// `|delta_milli| * surface_width < 48 * 15000`.
pub const PICKUP_NUMER: i64 = 720000;

/// Delivery proximity: both screen axes within 64 px, i.e.
/// `|delta_milli| * surface_width < 64 * 15000`.
pub const DELIVERY_NUMER: i64 = 960000;

/// Two houses may not be generated within 4 world units on both axes.
pub const HOUSE_GAP_MILLI: i64 = 4000;

/// A score-celebration value ages by `5 * dt_ms` milli-progress per frame
/// and is discarded once it passes this bound (progress 1.0).
pub const ANIM_FULL: u64 = 1000;

/// Player start position, in milli-units, on both axes.
pub const PLAYER_START_MILLI: i64 = 10000;

} // verus!
