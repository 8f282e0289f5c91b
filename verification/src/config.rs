//! What a game session is constructed from, and when it is refused.

use vstd::prelude::*;
use crate::constants::{
    GRAVITY, INCREASE_VELOCITY_EVERY, JUMP_FORCE_X, JUMP_FORCE_Y, OBSTACLE_POOL_SIZE,
    OBSTACLE_SIZE, OBSTACLE_SPEED_INCREASE_RATE, OBSTACLE_STAGGER,
};
use crate::vector::Vector2;

verus! {

/// The options of a game session.
#[derive(Clone, Copy, Debug, PartialEq, Eq, Structural)]
pub struct GameConfig {
    /// Width of the drawable area; obstacles spawn at its right edge.
    pub arena_width: i64,
    /// Height of the drawable area; obstacles stand on its floor.
    pub arena_height: i64,
    /// Number of obstacles in the pool.
    pub pool_size: usize,
    /// Width and height of every obstacle.
    pub obstacle_size: i64,
    /// Horizontal distance between two neighbours of the pool at spawn.
    pub obstacle_stagger: i64,
    /// Downward acceleration applied to the player on every tick.
    pub gravity: i64,
    /// Impulse of a jump.
    pub jump_force: Vector2,
    /// Time between two increases of the obstacles' speed.
    pub ramp_interval: u64,
    /// What one speed increase adds to an obstacle's horizontal velocity.
    pub speed_increment: i64,
}

/// Why a configuration is refused.
#[derive(Clone, Copy, Debug, PartialEq, Eq, Structural)]
pub enum ConfigError {
    /// The arena's width is zero or negative.
    ArenaWidth,
    /// The arena's height is zero or negative.
    ArenaHeight,
    /// The pool holds no obstacle.
    PoolSize,
    /// The obstacles' size is zero or negative.
    ObstacleSize,
    /// Gravity is negative: it is a magnitude, and it pulls downward.
    Gravity,
    /// The ramp interval is zero.
    RampInterval,
    /// The speed increment is positive: it would slow the obstacles down.
    SpeedIncrement,
}

impl GameConfig {
    /// The configuration for an arena of the given size with every other
    /// option at its default.
    pub open spec fn with_defaults(arena_width: i64, arena_height: i64) -> GameConfig {
        GameConfig {
            arena_width,
            arena_height,
            pool_size: OBSTACLE_POOL_SIZE,
            obstacle_size: OBSTACLE_SIZE,
            obstacle_stagger: OBSTACLE_STAGGER,
            gravity: GRAVITY,
            jump_force: Vector2 { x: JUMP_FORCE_X, y: JUMP_FORCE_Y },
            ramp_interval: INCREASE_VELOCITY_EVERY,
            speed_increment: OBSTACLE_SPEED_INCREASE_RATE,
        }
    }

    /// The first reason, in the order of [`ConfigError`]'s variants, why the
    /// configuration is refused; `None` for one that is accepted.
    pub open spec fn error(self) -> Option<ConfigError> {
        if self.arena_width <= 0 {
            Some(ConfigError::ArenaWidth)
        } else if self.arena_height <= 0 {
            Some(ConfigError::ArenaHeight)
        } else if self.pool_size == 0 {
            Some(ConfigError::PoolSize)
        } else if self.obstacle_size <= 0 {
            Some(ConfigError::ObstacleSize)
        } else if self.gravity < 0 {
            Some(ConfigError::Gravity)
        } else if self.ramp_interval == 0 {
            Some(ConfigError::RampInterval)
        } else if self.speed_increment > 0 {
            Some(ConfigError::SpeedIncrement)
        } else {
            None
        }
    }

    /// An accepted configuration: sizes, pool size and ramp interval are
    /// positive, gravity is not negative and the speed increment not positive.
    pub open spec fn valid(self) -> bool {
        &&& self.arena_width > 0
        &&& self.arena_height > 0
        &&& self.pool_size > 0
        &&& self.obstacle_size > 0
        &&& self.gravity >= 0
        &&& self.ramp_interval > 0
        &&& self.speed_increment <= 0
    }

    /// The configuration for an arena of the given size with every other
    /// option at its default.
    pub fn new(arena_width: i64, arena_height: i64) -> (config: GameConfig)
        ensures
            config == GameConfig::with_defaults(arena_width, arena_height),
            config.valid() <==> arena_width > 0 && arena_height > 0,
    {
        GameConfig {
            arena_width,
            arena_height,
            pool_size: OBSTACLE_POOL_SIZE,
            obstacle_size: OBSTACLE_SIZE,
            obstacle_stagger: OBSTACLE_STAGGER,
            gravity: GRAVITY,
            jump_force: Vector2 { x: JUMP_FORCE_X, y: JUMP_FORCE_Y },
            ramp_interval: INCREASE_VELOCITY_EVERY,
            speed_increment: OBSTACLE_SPEED_INCREASE_RATE,
        }
    }

    /// Accepts the configuration or names the first reason to refuse it.
    pub fn validate(&self) -> (result: Result<(), ConfigError>)
        ensures
            result is Ok <==> self.valid(),
            result is Err ==> self.error() == Some(result->Err_0),
    {
        if self.arena_width <= 0 {
            Err(ConfigError::ArenaWidth)
        } else if self.arena_height <= 0 {
            Err(ConfigError::ArenaHeight)
        } else if self.pool_size == 0 {
            Err(ConfigError::PoolSize)
        } else if self.obstacle_size <= 0 {
            Err(ConfigError::ObstacleSize)
        } else if self.gravity < 0 {
            Err(ConfigError::Gravity)
        } else if self.ramp_interval == 0 {
            Err(ConfigError::RampInterval)
        } else if self.speed_increment > 0 {
            Err(ConfigError::SpeedIncrement)
        } else {
            Ok(())
        }
    }
}

/// A configuration is accepted exactly when no reason to refuse it is found.
pub proof fn lemma_valid_iff_no_error(config: GameConfig)
    ensures
        config.valid() <==> config.error() is None,
{
}

} // verus!
