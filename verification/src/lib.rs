//! Deterministic simulation core of a side-scrolling runner game.
//!
//! A player falls under gravity, jumps off the ground and has to avoid a pool
//! of obstacles that scroll to the left, speed up at a fixed time interval and
//! are recycled once they have left the screen. The crate holds the physics,
//! the collision test and the game's state machine; it draws nothing and reads
//! no clock or keyboard: time and input are arguments of [`game::MyGame::tick`].
//!
//! All lengths are integers in fixed-point units of
//! 1/[`fixed::UNITS_PER_PIXEL`] pixel, all times are integers in units of
//! 1/[`fixed::CLOCK_UNITS_PER_TIME_UNIT`] time unit. Sums that leave the range of
//! `i64` stick at its ends.

pub mod fixed;
pub mod vector;
pub mod traits;
pub mod constants;
pub mod collision;
pub mod player;
pub mod obstacle;
pub mod config;
pub mod ramp;
pub mod game;
pub mod dynamics;
pub mod replay;
pub mod atlas;

pub use crate::atlas::{Atlas, Sprite};
pub use crate::config::{ConfigError, GameConfig};
pub use crate::constants::GameState;
pub use crate::game::{MyGame, Snapshot};
pub use crate::obstacle::Obstacle;
pub use crate::player::Player;
pub use crate::traits::{AddScalar, AddVector, MultiplyScalar};
pub use crate::vector::Vector2;
