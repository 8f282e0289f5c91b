//! The game's tuning constants and its two states.
//!
//! Lengths are in units of 1/1000 pixel, velocities in such units per tick,
//! times in units of 1/1000 time unit.

use vstd::prelude::*;

verus! {

/// Downward acceleration applied to the player on every tick (0.5 pixel).
pub const GRAVITY: i64 = 500;

/// Horizontal component of the impulse of a jump unless configured
/// otherwise: a jump does not push sideways.
pub const JUMP_FORCE_X: i64 = 0;

/// Vertical component of the impulse of a jump unless configured otherwise
/// (14 pixels, upward).
pub const JUMP_FORCE_Y: i64 = -14_000;

/// Time between two increases of the obstacles' speed (5 time units).
pub const INCREASE_VELOCITY_EVERY: u64 = 5_000;

/// Horizontal velocity of a fresh obstacle (8 pixels per tick, leftward).
pub const OBSTACLE_VELOCITY: i64 = -8_000;

/// What one speed increase adds to an obstacle's velocity (0.1 pixel).
pub const OBSTACLE_SPEED_INCREASE_RATE: i64 = -100;

/// Width and height of the player (128 pixels).
pub const PLAYER_SIZE: i64 = 128_000;

/// Where the player stands when a session starts (50 pixels from the left).
pub const PLAYER_SPAWN_X: i64 = 50_000;

/// Where the player stands when a session starts (50 pixels from the top).
pub const PLAYER_SPAWN_Y: i64 = 50_000;

/// Number of obstacles in the pool unless configured otherwise.
pub const OBSTACLE_POOL_SIZE: usize = 3;

/// Width and height of an obstacle unless configured otherwise (50 pixels).
pub const OBSTACLE_SIZE: i64 = 50_000;

/// Horizontal distance between two neighbours of the pool at spawn, unless
/// configured otherwise (500 pixels).
pub const OBSTACLE_STAGGER: i64 = 500_000;

/// The state of a game session.
#[derive(Clone, Copy, Debug, PartialEq, Eq, Structural)]
pub enum GameState {
    /// The simulation advances on every tick.
    Running,
    /// The player has hit an obstacle; only a restart leaves this state.
    GameOver,
}

} // verus!
