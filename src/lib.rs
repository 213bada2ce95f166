//! A ball-and-paddle arcade game: the per-frame physics and collision rules,
//! on fixed-point integer coordinates.
//!
//! Lengths are measured in sub-units: one logical screen unit is `UNIT`
//! sub-units. Velocities are in sub-units per second, and the time that a
//! frame lasts is given in microseconds.
use vstd::prelude::*;

pub mod geometry;
pub mod motion;
pub mod ball;
pub mod paddle;
pub mod block;
pub mod game;

verus! {

/// Sub-units in one logical screen unit.
pub const UNIT: i64 = 1000;

/// Microseconds in one second.
pub const MICROS_PER_SECOND: i64 = 1000000;

pub const SCREEN_WIDTH: i64 = 800000;

pub const SCREEN_HEIGHT: i64 = 600000;

pub const BLOCK_WIDTH: i64 = 40000;

pub const BLOCK_HEIGHT: i64 = 30000;

pub const BALL_RADIUS: i64 = 20000;

pub const PADDLE_WIDTH: i64 = 80000;

pub const PADDLE_HEIGHT: i64 = 10000;

/// Paddle speed, and the ball's speed at launch, in sub-units per second.
pub const PADDLE_SPEED: i64 = 100000;

/// A pair of coordinates, used for positions and for velocities.
#[derive(Clone, Copy, Debug, PartialEq, Eq, Structural)]
pub struct Vec2 {
    pub x: i64,
    pub y: i64,
}

} // verus!
