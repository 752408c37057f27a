//! The arena: its four walls and where the paddle stands.
use vstd::prelude::*;
use crate::config::{
    BOTTOM_WALL, GAP_BETWEEN_PADDLE_AND_FLOOR, LEFT_WALL, RIGHT_WALL, TOP_WALL, WALL_THICKNESS,
};
use crate::geometry::{Aabb2d, Vec2i};

verus! {

/// Which side of the arena a wall closes.
#[derive(Clone, Copy, Debug, PartialEq, Eq, Structural, Hash)]
pub enum WallLocation {
    Left,
    Right,
    Bottom,
    Top,
}

/// A wall of the arena, as the box that the ball is tested against.
#[derive(Clone, Copy, Debug, PartialEq, Eq, Structural)]
pub struct Wall {
    pub location: WallLocation,
    pub bounds: Aabb2d,
}

pub open spec fn arena_width() -> int {
    RIGHT_WALL - LEFT_WALL
}

pub open spec fn arena_height() -> int {
    TOP_WALL - BOTTOM_WALL
}

impl WallLocation {
    pub open spec fn position_spec(self) -> Vec2i {
        match self {
            WallLocation::Left => Vec2i { x: LEFT_WALL, y: 0 },
            WallLocation::Right => Vec2i { x: RIGHT_WALL, y: 0 },
            WallLocation::Bottom => Vec2i { x: 0, y: BOTTOM_WALL },
            WallLocation::Top => Vec2i { x: 0, y: TOP_WALL },
        }
    }

    /// Full extents: a side wall spans the arena's height plus one thickness, a
    /// floor or ceiling its width plus one thickness.
    pub open spec fn size_spec(self) -> Vec2i {
        match self {
            WallLocation::Left | WallLocation::Right => Vec2i {
                x: WALL_THICKNESS,
                y: (arena_height() + WALL_THICKNESS) as i32,
            },
            WallLocation::Bottom | WallLocation::Top => Vec2i {
                x: (arena_width() + WALL_THICKNESS) as i32,
                y: WALL_THICKNESS,
            },
        }
    }

    /// The center of the wall.
    pub fn position(&self) -> (r: Vec2i)
        ensures
            r == self.position_spec(),
    {
        match self {
            WallLocation::Left => Vec2i { x: LEFT_WALL, y: 0 },
            WallLocation::Right => Vec2i { x: RIGHT_WALL, y: 0 },
            WallLocation::Bottom => Vec2i { x: 0, y: BOTTOM_WALL },
            WallLocation::Top => Vec2i { x: 0, y: TOP_WALL },
        }
    }

    /// The full width and height of the wall.
    pub fn size(&self) -> (r: Vec2i)
        ensures
            r == self.size_spec(),
    {
        let arena_height = TOP_WALL - BOTTOM_WALL;
        let arena_width = RIGHT_WALL - LEFT_WALL;
        match self {
            WallLocation::Left | WallLocation::Right => Vec2i {
                x: WALL_THICKNESS,
                y: arena_height + WALL_THICKNESS,
            },
            WallLocation::Bottom | WallLocation::Top => Vec2i {
                x: arena_width + WALL_THICKNESS,
                y: WALL_THICKNESS,
            },
        }
    }
}

impl Wall {
    pub open spec fn bounds_spec(location: WallLocation) -> Aabb2d {
        Aabb2d {
            center: location.position_spec(),
            half_size: Vec2i {
                x: (location.size_spec().x / 2) as i32,
                y: (location.size_spec().y / 2) as i32,
            },
        }
    }

    /// The wall closing the arena on side `location`.
    pub fn new(location: WallLocation) -> (r: Wall)
        ensures
            r.location == location,
            r.bounds == Wall::bounds_spec(location),
            r.bounds.wf(),
    {
        let size = location.size();
        Wall {
            location,
            bounds: Aabb2d { center: location.position(), half_size: Vec2i { x: size.x / 2, y: size.y / 2 } },
        }
    }
}

/// Height of the paddle's center.
pub open spec fn paddle_y_spec() -> int {
    BOTTOM_WALL + GAP_BETWEEN_PADDLE_AND_FLOOR
}

/// Height of the paddle's center.
pub fn paddle_y() -> (r: i32)
    ensures
        r == paddle_y_spec(),
{
    BOTTOM_WALL + GAP_BETWEEN_PADDLE_AND_FLOOR
}

} // verus!
