//! Fixed geometry and tuning of the game, in subpixels and subpixels per second.
use vstd::prelude::*;

verus! {

/// Subpixels in one screen pixel: all positions and lengths use this unit.
pub const SUBPIXELS: i32 = 1000;

/// Microseconds in one second: the clock hands elapsed time in this unit.
pub const MICROS_PER_SECOND: i64 = 1_000_000;

pub const PADDLE_WIDTH: i32 = 120_000;
pub const PADDLE_HEIGHT: i32 = 20_000;
/// Height of the paddle's center above the bottom wall.
pub const GAP_BETWEEN_PADDLE_AND_FLOOR: i32 = 60_000;
/// Paddle speed, in subpixels per second.
pub const PADDLE_SPEED: i32 = 500_000;
/// Least distance kept between the paddle and a side wall.
pub const PADDLE_PADDING: i32 = 10_000;

pub const BALL_DIAMETER: i32 = 30_000;
pub const BALL_RADIUS: i32 = 15_000;
/// Ball speed, in subpixels per second.
pub const BALL_SPEED: i32 = 400_000;
/// Clearance between the paddle's top and an attached ball.
pub const BALL_LIFT: i32 = 5_000;

pub const WALL_THICKNESS: i32 = 10_000;
pub const LEFT_WALL: i32 = -450_000;
pub const RIGHT_WALL: i32 = 450_000;
pub const BOTTOM_WALL: i32 = -300_000;
pub const TOP_WALL: i32 = 300_000;

pub const BRICK_WIDTH: i32 = 100_000;
pub const BRICK_HEIGHT: i32 = 30_000;
pub const GAP_BETWEEN_PADDLE_AND_BRICKS: i32 = 270_000;
pub const GAP_BETWEEN_BRICKS: i32 = 5_000;
pub const GAP_BETWEEN_BRICKS_AND_CEILING: i32 = 20_000;
pub const GAP_BETWEEN_BRICKS_AND_SIDES: i32 = 20_000;

/// Rows of bricks on the easy level.
pub const EASY_LEVEL_ROWS: u32 = 3;

/// Lives at the start of a run.
pub const STARTING_LIVES: u64 = 3;

/// A relative hit position of one whole paddle half-width.
pub const RELATIVE_HIT_SCALE: i32 = 1000;

} // verus!
