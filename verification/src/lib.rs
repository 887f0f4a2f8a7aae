//! A deterministic, tick-driven combat simulator for a real-time strategy
//! game, built on a reproducible 20.12 signed fixed-point numeric kernel.
//!
//! Two opposing armies fight at a fixed logical tick rate until one side is
//! annihilated; the outcome reports the winner, the duration, damage dealt,
//! overkill, and surviving unit counts. All simulation-time arithmetic runs
//! on the fixed-point kernel so that a seed determines the whole trace.

pub mod fixed;
pub mod utils;
pub mod rng;
pub mod unit;
pub mod data;
pub mod weapon;
pub mod army;
pub mod effect;
pub mod coordinator;
pub mod laws;

pub use fixed::Fixed32;

use vstd::prelude::*;

verus! {

/// Raw bits of the game-speed factor 1.4 relating in-game to wall-clock
/// seconds.
pub const GAME_SPEED_BITS: i32 = 5734;

/// Raw bits of one physics step, 1/22.4 seconds.
pub const TICK_BITS: i32 = 182;

/// Raw bits of the largest random attack delay, 0.125 game-speed seconds.
pub const RANDOM_DELAY_MAX_BITS: i32 = 365;

/// Raw bits of the smallest random attack delay, -0.0625 game-speed seconds.
pub const RANDOM_DELAY_MIN_BITS: i32 = -182;

/// Raw bits of the battlecruiser's larger random delay bound.
pub const BC_RANDOM_DELAY_MAX_BITS: i32 = 548;

/// Raw bits of the damage-free window before shields recharge.
pub const SHIELD_RECHARGE_DELAY_BITS: i32 = 29259;

/// Raw bits of the shield recharge rate per second.
pub const SHIELD_RECHARGE_RATE_BITS: i32 = 11468;

/// Raw bits of the general hull regeneration rate of zerg units.
pub const ZERG_REGEN_BITS: i32 = 1566;

/// Raw bits of the mutalisk's hull regeneration rate.
pub const MUTA_REGEN_BITS: i32 = 5734;

/// Raw bits of the per-tick energy increment.
pub const ENERGY_REGEN_BITS: i32 = 3225;

/// Raw bits of the damage floor 0.5: armor cannot push a hit below it.
pub const MIN_DAMAGE_BITS: i32 = 2048;

/// Raw bits of the build-speed multiplier of a chronoboost.
pub const CHRONOBOOST_MOD_BITS: i32 = 6144;

/// Raw bits of the default arc slop of 11.25 degrees.
pub const DEFAULT_ARC_SLOP_BITS: i32 = 46080;

/// Raw bits of the default range slop of one unit.
pub const DEFAULT_RANGE_SLOP_BITS: i32 = 4096;

/// Raw bits of the default post-attack lock of 0.5 game-speed seconds.
pub const DEFAULT_BACKSWING_BITS: i32 = 1462;

/// Raw bits of the default attack windup of 0.167 game-speed seconds.
pub const DEFAULT_DAMAGE_POINT_BITS: i32 = 488;

/// Raw bits of the projectile flight speed used for flight times.
pub const DEFAULT_PROJECTILE_SPEED_BITS: i32 = 107512;

/// Upper raw bound accepted for an archetype statistic (4096 whole units):
/// every well-formed stat fits far inside the fixed-point range, which keeps
/// the per-tick arithmetic free of wrapping.
pub const STAT_MAX_BITS: i32 = 16777216;

} // verus!
