//! What entering play puts on the field: the paddle, an attached ball, the
//! walls, and a grid of bricks sized by the arena and the level.
use vstd::prelude::*;
use crate::arena::{paddle_y, paddle_y_spec, Wall, WallLocation};
use crate::config::{
    BRICK_HEIGHT, BRICK_WIDTH, EASY_LEVEL_ROWS, GAP_BETWEEN_BRICKS, GAP_BETWEEN_BRICKS_AND_CEILING,
    GAP_BETWEEN_BRICKS_AND_SIDES, GAP_BETWEEN_PADDLE_AND_BRICKS, LEFT_WALL, RIGHT_WALL, TOP_WALL,
};
use crate::geometry::Vec2i;
use crate::physics::{attached_position_spec, reset_ball, Ball, Velocity};
use crate::state::Level;

verus! {

/// Width left for bricks between the side gaps.
pub open spec fn total_width_of_bricks() -> int {
    (RIGHT_WALL - LEFT_WALL) - 2 * GAP_BETWEEN_BRICKS_AND_SIDES
}

/// Height of the lower edge of the lowest row.
pub open spec fn bottom_edge_of_bricks() -> int {
    paddle_y_spec() + GAP_BETWEEN_PADDLE_AND_BRICKS
}

/// Height left for bricks below the ceiling gap.
pub open spec fn total_height_of_bricks() -> int {
    TOP_WALL - bottom_edge_of_bricks() - GAP_BETWEEN_BRICKS_AND_CEILING
}

/// As many columns as fit, each a brick and a gap wide.
pub open spec fn n_columns() -> int {
    total_width_of_bricks() / (BRICK_WIDTH + GAP_BETWEEN_BRICKS)
}

/// As many rows as fit, each a brick and a gap high.
pub open spec fn max_n_rows() -> int {
    total_height_of_bricks() / (BRICK_HEIGHT + GAP_BETWEEN_BRICKS)
}

/// Rows on a level: the easy level stops at a few, the hard one fills the space.
pub open spec fn n_rows(level: Level) -> int {
    match level {
        Level::Level1 => if max_n_rows() < EASY_LEVEL_ROWS {
            max_n_rows()
        } else {
            EASY_LEVEL_ROWS as int
        },
        Level::Level2 => max_n_rows(),
    }
}

/// Left edge of the grid, which is centered between the walls.
pub open spec fn left_edge_of_bricks() -> int {
    (LEFT_WALL + RIGHT_WALL) / 2 - (n_columns() * BRICK_WIDTH + (n_columns() - 1)
        * GAP_BETWEEN_BRICKS) / 2
}

/// Center of the brick in row `row` (counted upward) and column `column`.
pub open spec fn brick_position(row: int, column: int) -> Vec2i {
    Vec2i {
        x: (left_edge_of_bricks() + BRICK_WIDTH / 2 + column * (BRICK_WIDTH + GAP_BETWEEN_BRICKS)) as i32,
        y: (bottom_edge_of_bricks() + BRICK_HEIGHT / 2 + row * (BRICK_HEIGHT + GAP_BETWEEN_BRICKS)) as i32,
    }
}

/// The grid in row-major order, lowest row first.
pub open spec fn brick_grid(level: Level) -> Seq<Vec2i> {
    Seq::new(
        (n_rows(level) * n_columns()) as nat,
        |k: int| brick_position(k / n_columns(), k % n_columns()),
    )
}

/// The available space is positive, as the layout needs.
pub proof fn lemma_layout_fits()
    ensures
        total_width_of_bricks() > 0,
        total_height_of_bricks() > 0,
        n_columns() == 8,
        max_n_rows() == 7,
        n_rows(Level::Level1) == 3,
        n_rows(Level::Level2) == 7,
{
}

/// Centers of the bricks of `level`, row by row from the bottom, each row from left to right.
pub fn brick_layout(level: Level) -> (r: Vec<Vec2i>)
    ensures
        r@ == brick_grid(level),
{
    proof {
        lemma_layout_fits();
    }
    let total_width: i32 = (RIGHT_WALL - LEFT_WALL) - 2 * GAP_BETWEEN_BRICKS_AND_SIDES;
    let bottom_edge: i32 = paddle_y() + GAP_BETWEEN_PADDLE_AND_BRICKS;
    let total_height: i32 = TOP_WALL - bottom_edge - GAP_BETWEEN_BRICKS_AND_CEILING;
    let n_cols: i32 = total_width / (BRICK_WIDTH + GAP_BETWEEN_BRICKS);
    let max_rows: i32 = total_height / (BRICK_HEIGHT + GAP_BETWEEN_BRICKS);
    let rows: i32 = match level {
        Level::Level1 => if max_rows < EASY_LEVEL_ROWS as i32 {
            max_rows
        } else {
            EASY_LEVEL_ROWS as i32
        },
        Level::Level2 => max_rows,
    };
    let left_edge: i32 = (LEFT_WALL + RIGHT_WALL) / 2 - (n_cols * BRICK_WIDTH + (n_cols - 1)
        * GAP_BETWEEN_BRICKS) / 2;
    let offset_x: i32 = left_edge + BRICK_WIDTH / 2;
    let offset_y: i32 = bottom_edge + BRICK_HEIGHT / 2;
    assert(offset_x == left_edge_of_bricks() + BRICK_WIDTH / 2);
    assert(rows == n_rows(level));
    let mut bricks: Vec<Vec2i> = Vec::new();
    let mut row: i32 = 0;
    while row < rows
        invariant
            0 <= row <= rows,
            rows == n_rows(level),
            1 <= rows <= 7,
            n_cols == 8,
            n_cols == n_columns(),
            offset_x == left_edge_of_bricks() + BRICK_WIDTH / 2,
            offset_y == bottom_edge_of_bricks() + BRICK_HEIGHT / 2,
            offset_x == -367_500,
            offset_y == 45_000,
            bricks@.len() == row * 8,
            forall|k: int|
                0 <= k < bricks@.len() ==> #[trigger] bricks@[k] == brick_position(k / 8, k % 8),
        decreases rows - row,
    {
        let mut column: i32 = 0;
        while column < n_cols
            invariant
                0 <= row < rows,
                1 <= rows <= 7,
                0 <= column <= n_cols,
                n_cols == 8,
                offset_x == left_edge_of_bricks() + BRICK_WIDTH / 2,
                offset_y == bottom_edge_of_bricks() + BRICK_HEIGHT / 2,
                offset_x == -367_500,
                offset_y == 45_000,
                bricks@.len() == row * 8 + column,
                forall|k: int|
                    0 <= k < bricks@.len() ==> #[trigger] bricks@[k] == brick_position(
                        k / 8,
                        k % 8,
                    ),
            decreases n_cols - column,
        {
            assert(0 <= column * (BRICK_WIDTH + GAP_BETWEEN_BRICKS) <= 8 * 105_000) by (nonlinear_arith)
                requires
                    0 <= column < 8,
                    BRICK_WIDTH + GAP_BETWEEN_BRICKS == 105_000,
            ;
            assert(0 <= row * (BRICK_HEIGHT + GAP_BETWEEN_BRICKS) <= 7 * 35_000) by (nonlinear_arith)
                requires
                    0 <= row < 7,
                    BRICK_HEIGHT + GAP_BETWEEN_BRICKS == 35_000,
            ;
            let p = Vec2i {
                x: offset_x + column * (BRICK_WIDTH + GAP_BETWEEN_BRICKS),
                y: offset_y + row * (BRICK_HEIGHT + GAP_BETWEEN_BRICKS),
            };
            let ghost k = bricks@.len() as int;
            assert(k / 8 == row && k % 8 == column);
            bricks.push(p);
            column = column + 1;
        }
        row = row + 1;
    }
    assert(bricks@ =~= brick_grid(level));
    bricks
}

/// Everything that entering play creates.
pub struct Playfield {
    /// Center of the paddle.
    pub paddle: Vec2i,
    pub ball: Ball,
    /// The four walls: left, right, bottom, top.
    pub walls: Vec<Wall>,
    /// Centers of the bricks, as `brick_layout` orders them.
    pub bricks: Vec<Vec2i>,
}

/// Lays out the field for `level`: the paddle centered above the floor, the ball
/// attached on top of it, the four walls, and the level's grid of bricks.
pub fn setup_game(level: Level) -> (r: Playfield)
    ensures
        r.paddle == (Vec2i { x: 0, y: paddle_y_spec() as i32 }),
        r.ball.attached,
        r.ball.position == attached_position_spec(r.paddle),
        r.ball.velocity == (Velocity { x: 0, y: 0 }),
        r.walls@.len() == 4,
        r.walls@[0] == (Wall { location: WallLocation::Left, bounds: Wall::bounds_spec(WallLocation::Left) }),
        r.walls@[1] == (Wall { location: WallLocation::Right, bounds: Wall::bounds_spec(WallLocation::Right) }),
        r.walls@[2] == (Wall { location: WallLocation::Bottom, bounds: Wall::bounds_spec(WallLocation::Bottom) }),
        r.walls@[3] == (Wall { location: WallLocation::Top, bounds: Wall::bounds_spec(WallLocation::Top) }),
        r.bricks@ == brick_grid(level),
{
    let paddle = Vec2i { x: 0, y: paddle_y() };
    let ball = reset_ball(paddle);
    let mut walls: Vec<Wall> = Vec::new();
    walls.push(Wall::new(WallLocation::Left));
    walls.push(Wall::new(WallLocation::Right));
    walls.push(Wall::new(WallLocation::Bottom));
    walls.push(Wall::new(WallLocation::Top));
    let bricks = brick_layout(level);
    Playfield { paddle, ball, walls, bricks }
}

} // verus!
