//! Circle-versus-box collision math on integer coordinates.
//!
//! Positions and lengths are measured in subpixels (see `config::SUBPIXELS`), so
//! every quantity here is exact and each overlap test is decided without rounding.
use vstd::prelude::*;

verus! {

/// A point or a vector in the plane.
#[derive(Clone, Copy, Debug, PartialEq, Eq, Structural)]
pub struct Vec2i {
    pub x: i32,
    pub y: i32,
}

/// The face of a box that a ball struck.
#[derive(Clone, Copy, Debug, PartialEq, Eq, Structural)]
pub enum Collision {
    Left,
    Right,
    Top,
    Bottom,
}

/// The ball seen as a circle.
#[derive(Clone, Copy, Debug, PartialEq, Eq, Structural)]
pub struct BoundingCircle {
    pub center: Vec2i,
    pub radius: i32,
}

/// An axis-aligned box given by its center and half extents.
#[derive(Clone, Copy, Debug, PartialEq, Eq, Structural)]
pub struct Aabb2d {
    pub center: Vec2i,
    pub half_size: Vec2i,
}

pub open spec fn clamp_spec(v: int, lo: int, hi: int) -> int {
    if v < lo {
        lo
    } else if v > hi {
        hi
    } else {
        v
    }
}

pub open spec fn abs_spec(v: int) -> int {
    if v < 0 {
        -v
    } else {
        v
    }
}

impl Vec2i {
    pub fn new(x: i32, y: i32) -> (r: Vec2i)
        ensures
            r.x == x,
            r.y == y,
    {
        Vec2i { x, y }
    }
}

impl BoundingCircle {
    pub open spec fn wf(self) -> bool {
        self.radius >= 0
    }

    pub fn new(center: Vec2i, radius: i32) -> (r: BoundingCircle)
        ensures
            r.center == center,
            r.radius == radius,
    {
        BoundingCircle { center, radius }
    }
}

impl Aabb2d {
    pub open spec fn wf(self) -> bool {
        self.half_size.x >= 0 && self.half_size.y >= 0
    }

    pub open spec fn min_x(self) -> int {
        self.center.x - self.half_size.x
    }

    pub open spec fn max_x(self) -> int {
        self.center.x + self.half_size.x
    }

    pub open spec fn min_y(self) -> int {
        self.center.y - self.half_size.y
    }

    pub open spec fn max_y(self) -> int {
        self.center.y + self.half_size.y
    }

    /// The point of the box nearest to `p`.
    pub open spec fn closest_spec(self, p: Vec2i) -> (int, int) {
        (clamp_spec(p.x as int, self.min_x(), self.max_x()), clamp_spec(
            p.y as int,
            self.min_y(),
            self.max_y(),
        ))
    }

    /// `p` lies strictly inside the box.
    pub open spec fn strictly_contains(self, p: Vec2i) -> bool {
        self.min_x() < p.x < self.max_x() && self.min_y() < p.y < self.max_y()
    }

    pub fn new(center: Vec2i, half_size: Vec2i) -> (r: Aabb2d)
        ensures
            r.center == center,
            r.half_size == half_size,
    {
        Aabb2d { center, half_size }
    }

    /// The point of the box nearest to `p`.
    pub fn closest_point(&self, p: Vec2i) -> (r: (i64, i64))
        requires
            self.wf(),
        ensures
            r.0 == self.closest_spec(p).0,
            r.1 == self.closest_spec(p).1,
    {
        let min_x = self.center.x as i64 - self.half_size.x as i64;
        let max_x = self.center.x as i64 + self.half_size.x as i64;
        let min_y = self.center.y as i64 - self.half_size.y as i64;
        let max_y = self.center.y as i64 + self.half_size.y as i64;
        (clamp_i64(p.x as i64, min_x, max_x), clamp_i64(p.y as i64, min_y, max_y))
    }
}

fn clamp_i64(v: i64, lo: i64, hi: i64) -> (r: i64)
    ensures
        r == clamp_spec(v as int, lo as int, hi as int),
{
    if v < lo {
        lo
    } else if v > hi {
        hi
    } else {
        v
    }
}

/// The offset of the circle's center from the nearest point of the box.
pub open spec fn offset_spec(ball: BoundingCircle, b: Aabb2d) -> (int, int) {
    (ball.center.x - b.closest_spec(ball.center).0, ball.center.y - b.closest_spec(ball.center).1)
}

/// The circle and the box overlap: the nearest point of the box lies within the radius.
pub open spec fn intersects_spec(ball: BoundingCircle, b: Aabb2d) -> bool {
    let (dx, dy) = offset_spec(ball, b);
    dx * dx + dy * dy <= ball.radius * ball.radius
}

/// The face named by an offset: the dominant axis decides, and a tie goes to the
/// vertical faces, with an offset of zero height counted as `Bottom`.
pub open spec fn side_spec(dx: int, dy: int) -> Collision {
    if abs_spec(dx) > abs_spec(dy) {
        if dx < 0 {
            Collision::Left
        } else {
            Collision::Right
        }
    } else if dy > 0 {
        Collision::Top
    } else {
        Collision::Bottom
    }
}

pub open spec fn ball_collision_spec(ball: BoundingCircle, b: Aabb2d) -> Option<Collision> {
    if intersects_spec(ball, b) {
        Some(side_spec(offset_spec(ball, b).0, offset_spec(ball, b).1))
    } else {
        None
    }
}

proof fn lemma_square_bound(v: int)
    requires
        -0x1_0000_0000 <= v <= 0x1_0000_0000,
    ensures
        0 <= v * v <= 0x1_0000_0000_0000_0000,
{
    assert(0 <= v * v <= 0x1_0000_0000_0000_0000) by (nonlinear_arith)
        requires
            -0x1_0000_0000 <= v <= 0x1_0000_0000,
    ;
}

/// Whether the circle and the box overlap.
pub fn intersects(ball: &BoundingCircle, b: &Aabb2d) -> (r: bool)
    requires
        ball.wf(),
        b.wf(),
    ensures
        r == intersects_spec(*ball, *b),
{
    let (px, py) = b.closest_point(ball.center);
    let dx = ball.center.x as i64 - px;
    let dy = ball.center.y as i64 - py;
    proof {
        lemma_square_bound(dx as int);
        lemma_square_bound(dy as int);
        lemma_square_bound(ball.radius as int);
    }
    let dx2 = dx as i128 * dx as i128;
    let dy2 = dy as i128 * dy as i128;
    let r2 = ball.radius as i128 * ball.radius as i128;
    dx2 + dy2 <= r2
}

/// Decides whether the ball touches the box and, if it does, which face it struck.
pub fn ball_collision(ball: BoundingCircle, bounding_box: Aabb2d) -> (r: Option<Collision>)
    requires
        ball.wf(),
        bounding_box.wf(),
    ensures
        r == ball_collision_spec(ball, bounding_box),
{
    if !intersects(&ball, &bounding_box) {
        return None;
    }
    let (px, py) = bounding_box.closest_point(ball.center);
    let dx = ball.center.x as i64 - px;
    let dy = ball.center.y as i64 - py;
    let ax = if dx < 0 {
        -dx
    } else {
        dx
    };
    let ay = if dy < 0 {
        -dy
    } else {
        dy
    };
    let side = if ax > ay {
        if dx < 0 {
            Collision::Left
        } else {
            Collision::Right
        }
    } else if dy > 0 {
        Collision::Top
    } else {
        Collision::Bottom
    };
    Some(side)
}

/// A ball whose center lies farther than its radius from the box along either
/// axis does not touch the box.
pub proof fn lemma_far_ball_misses(ball: BoundingCircle, b: Aabb2d)
    requires
        ball.wf(),
        b.wf(),
        abs_spec(offset_spec(ball, b).0) > ball.radius || abs_spec(offset_spec(ball, b).1)
            > ball.radius,
    ensures
        ball_collision_spec(ball, b) == None::<Collision>,
{
    let (dx, dy) = offset_spec(ball, b);
    let r = ball.radius as int;
    assert(dx * dx + dy * dy > r * r) by (nonlinear_arith)
        requires
            r >= 0,
            abs_spec(dx) > r || abs_spec(dy) > r,
            abs_spec(dx) == dx || abs_spec(dx) == -dx,
            abs_spec(dy) == dy || abs_spec(dy) == -dy,
    ;
}

/// A ball whose center lies strictly inside the box always collides, and the
/// zero offset names the bottom face.
pub proof fn lemma_center_inside_hits_bottom(ball: BoundingCircle, b: Aabb2d)
    requires
        ball.wf(),
        b.wf(),
        b.strictly_contains(ball.center),
    ensures
        ball_collision_spec(ball, b) == Some(Collision::Bottom),
{
    assert(offset_spec(ball, b) == (0int, 0int));
    assert(ball.radius * ball.radius >= 0) by (nonlinear_arith)
        requires
            ball.radius >= 0,
    ;
}

} // verus!
