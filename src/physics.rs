//! The per-tick simulation step: paddle motion, ball integration, and the
//! collision response that drives score, lives and the end of a level.
use vstd::prelude::*;
use crate::arena::WallLocation;
use crate::config::{
    BALL_DIAMETER, BALL_LIFT, BALL_RADIUS, BALL_SPEED, LEFT_WALL, MICROS_PER_SECOND, PADDLE_HEIGHT,
    PADDLE_PADDING, PADDLE_SPEED, PADDLE_WIDTH, RELATIVE_HIT_SCALE, RIGHT_WALL, WALL_THICKNESS,
};
use crate::geometry::{
    abs_spec, ball_collision, ball_collision_spec, clamp_spec, Aabb2d, BoundingCircle, Collision,
    Vec2i,
};
use crate::state::{lose_life_spec, Lives, PlayingState, Score};

verus! {

/// A velocity in subpixels per second.
#[derive(Clone, Copy, Debug, PartialEq, Eq, Structural)]
pub struct Velocity {
    pub x: i32,
    pub y: i32,
}

impl Velocity {
    /// Both components can be negated.
    pub open spec fn wf(self) -> bool {
        self.x > i32::MIN && self.y > i32::MIN
    }

    pub fn new(x: i32, y: i32) -> (r: Velocity)
        ensures
            r.x == x,
            r.y == y,
    {
        Velocity { x, y }
    }
}

/// The ball: where it is, how it moves, and whether it rides on the paddle.
#[derive(Clone, Copy, Debug, PartialEq, Eq, Structural)]
pub struct Ball {
    pub position: Vec2i,
    pub velocity: Velocity,
    pub attached: bool,
}

/// What a collider is, as far as the collision response cares.
#[derive(Clone, Copy, Debug, PartialEq, Eq, Structural)]
pub enum ColliderKind {
    Paddle,
    Brick,
    Wall(WallLocation),
}

/// An entity that the ball is tested against, under an identity chosen by the caller.
#[derive(Clone, Copy, Debug, PartialEq, Eq, Structural)]
pub struct Collider {
    pub id: u64,
    pub bounds: Aabb2d,
    pub kind: ColliderKind,
}

/// How a tick of collision response ends.
#[derive(Clone, Copy, Debug, PartialEq, Eq, Structural)]
pub enum TickOutcome {
    /// Play goes on.
    Continue,
    /// The ball reached the floor with lives to spare: it is removed and a new
    /// one is attached to the paddle.
    BallLost,
    /// The ball reached the floor with the last life.
    GameOver,
    /// The last brick was destroyed.
    Victory,
}

/// What one tick of collision response did, besides updating the ball, score and lives.
pub struct CollisionReport {
    /// Colliders that the ball touched; each one is a collision notification.
    pub collisions: u64,
    /// Bricks destroyed, in the order they were hit.
    pub despawned: Vec<u64>,
    pub outcome: TickOutcome,
}

/// The state threaded through the collision response of one tick.
pub struct ResponseModel {
    pub velocity: Velocity,
    pub score: nat,
    pub lives: nat,
    pub collisions: nat,
    pub despawned: Seq<u64>,
    pub outcome: TickOutcome,
}

// ---------------------------------------------------------------------------
// Reflection
pub open spec fn flip_spec(v: Velocity, side: Collision) -> Velocity {
    match side {
        Collision::Left | Collision::Right => Velocity { x: (-v.x) as i32, y: v.y },
        Collision::Top | Collision::Bottom => Velocity { x: v.x, y: (-v.y) as i32 },
    }
}

/// The ball moves into the face `side`: only then is it turned back.
pub open spec fn moves_into(v: Velocity, side: Collision) -> bool {
    match side {
        Collision::Left => v.x > 0,
        Collision::Right => v.x < 0,
        Collision::Top => v.y < 0,
        Collision::Bottom => v.y > 0,
    }
}

pub open spec fn reflect_spec(v: Velocity, side: Collision) -> Velocity {
    if moves_into(v, side) {
        flip_spec(v, side)
    } else {
        v
    }
}

/// Turns the velocity back along the axis of `side`, but only if the ball is
/// moving into that face; a ball already leaving it keeps its velocity.
pub fn reflect_velocity(v: Velocity, side: Collision) -> (r: Velocity)
    requires
        v.wf(),
    ensures
        r == reflect_spec(v, side),
        r.wf(),
{
    match side {
        Collision::Left => if v.x > 0 {
            Velocity { x: -v.x, y: v.y }
        } else {
            v
        },
        Collision::Right => if v.x < 0 {
            Velocity { x: -v.x, y: v.y }
        } else {
            v
        },
        Collision::Top => if v.y < 0 {
            Velocity { x: v.x, y: -v.y }
        } else {
            v
        },
        Collision::Bottom => if v.y > 0 {
            Velocity { x: v.x, y: -v.y }
        } else {
            v
        },
    }
}

/// Reflecting a velocity twice along the same axis gives it back, and the other
/// component is never touched.
pub proof fn lemma_flip_twice(v: Velocity, side: Collision)
    requires
        v.wf(),
    ensures
        flip_spec(flip_spec(v, side), side) == v,
        (side == Collision::Left || side == Collision::Right) ==> flip_spec(v, side).y == v.y,
        (side == Collision::Top || side == Collision::Bottom) ==> flip_spec(v, side).x == v.x,
{
}

/// A reflection either keeps the velocity or flips the one component of its face,
/// and a second hit on the same face leaves the reflected velocity alone.
pub proof fn lemma_reflect_settles(v: Velocity, side: Collision)
    requires
        v.wf(),
    ensures
        reflect_spec(v, side) == v || reflect_spec(v, side) == flip_spec(v, side),
        reflect_spec(reflect_spec(v, side), side) == reflect_spec(v, side),
{
}

// ---------------------------------------------------------------------------
// Paddle bounce
/// Where along the paddle the ball struck, from `-RELATIVE_HIT_SCALE` at the left
/// end to `RELATIVE_HIT_SCALE` at the right end, rounded toward the center.
pub open spec fn relative_hit_spec(ball_x: int, paddle_x: int) -> int {
    let d = ball_x - paddle_x;
    let m = abs_spec(d) * RELATIVE_HIT_SCALE / (PADDLE_WIDTH / 2);
    let c = if m > RELATIVE_HIT_SCALE {
        RELATIVE_HIT_SCALE as int
    } else {
        m
    };
    if d < 0 {
        -c
    } else {
        c
    }
}

/// The relative hit position of a ball at `ball_x` on a paddle centered at
/// `paddle_x`; the bounce angle is this fraction of a third of a half turn.
pub fn relative_hit(ball_x: i32, paddle_x: i32) -> (r: i32)
    ensures
        r == relative_hit_spec(ball_x as int, paddle_x as int),
        -RELATIVE_HIT_SCALE <= r <= RELATIVE_HIT_SCALE,
{
    let d: i64 = ball_x as i64 - paddle_x as i64;
    let a: i64 = if d < 0 {
        -d
    } else {
        d
    };
    assert(0 <= a * 1000 <= 0x1_0000_0000 * 1000) by (nonlinear_arith)
        requires
            0 <= a <= 0x1_0000_0000,
    ;
    let m: i64 = a * (RELATIVE_HIT_SCALE as i64) / ((PADDLE_WIDTH / 2) as i64);
    let c: i64 = if m > RELATIVE_HIT_SCALE as i64 {
        RELATIVE_HIT_SCALE as i64
    } else {
        m
    };
    if d < 0 {
        (-c) as i32
    } else {
        c as i32
    }
}

// ---------------------------------------------------------------------------
// Motion
/// Distance covered in `dt` microseconds at `speed`, rounded toward zero.
pub open spec fn travel_spec(speed: int, dt: int) -> int {
    if speed < 0 {
        -((-speed) * dt / MICROS_PER_SECOND as int)
    } else {
        speed * dt / MICROS_PER_SECOND as int
    }
}

pub open spec fn paddle_min_x() -> int {
    LEFT_WALL + WALL_THICKNESS / 2 + PADDLE_WIDTH / 2 + PADDLE_PADDING
}

pub open spec fn paddle_max_x() -> int {
    RIGHT_WALL - WALL_THICKNESS / 2 - PADDLE_WIDTH / 2 - PADDLE_PADDING
}

pub open spec fn direction_spec(left: bool, right: bool) -> int {
    (if right {
        1int
    } else {
        0int
    }) - (if left {
        1int
    } else {
        0int
    })
}

pub open spec fn move_paddle_spec(x: int, left: bool, right: bool, dt: int) -> int {
    clamp_spec(
        x + direction_spec(left, right) * travel_spec(PADDLE_SPEED as int, dt),
        paddle_min_x(),
        paddle_max_x(),
    )
}

proof fn lemma_travel_bound(speed: int, dt: int)
    requires
        0 <= speed <= 0x8000_0000,
        0 <= dt <= 0xffff_ffff,
    ensures
        0 <= speed * dt <= 0x8000_0000 * 0xffff_ffff,
        0 <= speed * dt / MICROS_PER_SECOND as int <= speed * dt,
{
    assert(0 <= speed * dt <= 0x8000_0000 * 0xffff_ffff) by (nonlinear_arith)
        requires
            0 <= speed <= 0x8000_0000,
            0 <= dt <= 0xffff_ffff,
    ;
}

/// Distance covered in `dt` microseconds at `speed`, rounded toward zero.
fn travel(speed: i32, dt: u32) -> (r: i64)
    ensures
        r == travel_spec(speed as int, dt as int),
        -0x8000_0000 * 0x1_0000_0000 <= r <= 0x8000_0000 * 0x1_0000_0000,
{
    let mag: u64 = if speed < 0 {
        (-(speed as i64)) as u64
    } else {
        speed as u64
    };
    proof {
        lemma_travel_bound(mag as int, dt as int);
    }
    let t: u64 = mag * (dt as u64) / (MICROS_PER_SECOND as u64);
    if speed < 0 {
        -(t as i64)
    } else {
        t as i64
    }
}

/// Moves the paddle at its fixed speed in the direction of the held keys for
/// `dt` microseconds, keeping it inside the walls less the padding.
pub fn move_paddle(paddle_x: i32, left_pressed: bool, right_pressed: bool, dt: u32) -> (r: i32)
    ensures
        r == move_paddle_spec(paddle_x as int, left_pressed, right_pressed, dt as int),
        paddle_min_x() <= r <= paddle_max_x(),
{
    let t = travel(PADDLE_SPEED, dt);
    let mut x: i64 = paddle_x as i64;
    if right_pressed && !left_pressed {
        x = x + t;
    } else if left_pressed && !right_pressed {
        x = x - t;
    }
    proof {
        let d = direction_spec(left_pressed, right_pressed);
        let tv = travel_spec(PADDLE_SPEED as int, dt as int);
        if right_pressed && !left_pressed {
            assert(d == 1 && d * tv == tv);
        } else if left_pressed && !right_pressed {
            assert(d == -1 && d * tv == -tv);
        } else {
            assert(d == 0);
            assert(d * tv == 0) by (nonlinear_arith)
                requires
                    d == 0,
            ;
        }
    }
    let lo: i64 = (LEFT_WALL + WALL_THICKNESS / 2 + PADDLE_WIDTH / 2 + PADDLE_PADDING) as i64;
    let hi: i64 = (RIGHT_WALL - WALL_THICKNESS / 2 - PADDLE_WIDTH / 2 - PADDLE_PADDING) as i64;
    if x < lo {
        lo as i32
    } else if x > hi {
        hi as i32
    } else {
        x as i32
    }
}

/// The position after moving at `v` for `dt` microseconds.
pub open spec fn integrate_spec(p: Vec2i, v: Velocity, dt: int) -> (int, int) {
    (p.x + travel_spec(v.x as int, dt), p.y + travel_spec(v.y as int, dt))
}

pub open spec fn fits_i32(v: int) -> bool {
    i32::MIN <= v <= i32::MAX
}

/// Moves a ball that is not attached by its velocity over `dt` microseconds;
/// an attached ball stays where it is.
pub fn apply_velocity(ball: &mut Ball, dt: u32)
    requires
        !old(ball).attached ==> fits_i32(
            integrate_spec(old(ball).position, old(ball).velocity, dt as int).0,
        ) && fits_i32(integrate_spec(old(ball).position, old(ball).velocity, dt as int).1),
    ensures
        final(ball).velocity == old(ball).velocity,
        final(ball).attached == old(ball).attached,
        old(ball).attached ==> final(ball).position == old(ball).position,
        !old(ball).attached ==> final(ball).position.x == integrate_spec(
            old(ball).position,
            old(ball).velocity,
            dt as int,
        ).0,
        !old(ball).attached ==> final(ball).position.y == integrate_spec(
            old(ball).position,
            old(ball).velocity,
            dt as int,
        ).1,
{
    if !ball.attached {
        let tx = travel(ball.velocity.x, dt);
        let ty = travel(ball.velocity.y, dt);
        ball.position = Vec2i {
            x: (ball.position.x as i64 + tx) as i32,
            y: (ball.position.y as i64 + ty) as i32,
        };
    }
}

/// Where an attached ball sits: centered over the paddle, just above its top.
pub open spec fn attached_position_spec(paddle: Vec2i) -> Vec2i {
    Vec2i {
        x: paddle.x,
        y: (paddle.y + PADDLE_HEIGHT / 2 + BALL_DIAMETER / 2 + BALL_LIFT) as i32,
    }
}

pub open spec fn attachable(paddle: Vec2i) -> bool {
    paddle.y + PADDLE_HEIGHT / 2 + BALL_DIAMETER / 2 + BALL_LIFT <= i32::MAX
}

impl Ball {
    /// The circle that the ball occupies.
    pub open spec fn circle_spec(self) -> BoundingCircle {
        BoundingCircle { center: self.position, radius: BALL_RADIUS }
    }

    /// The circle that the ball occupies.
    pub fn circle(&self) -> (r: BoundingCircle)
        ensures
            r == self.circle_spec(),
            r.wf(),
    {
        BoundingCircle { center: self.position, radius: BALL_RADIUS }
    }
}

/// A new ball at rest on the paddle centered at `paddle`, as placed when play
/// starts and after a lost ball.
pub fn reset_ball(paddle: Vec2i) -> (r: Ball)
    requires
        attachable(paddle),
    ensures
        r.attached,
        r.position == attached_position_spec(paddle),
        r.velocity == (Velocity { x: 0, y: 0 }),
{
    Ball {
        position: Vec2i {
            x: paddle.x,
            y: paddle.y + PADDLE_HEIGHT / 2 + BALL_DIAMETER / 2 + BALL_LIFT,
        },
        velocity: Velocity { x: 0, y: 0 },
        attached: true,
    }
}

/// Keeps an attached ball on top of the paddle; a launched ball is left alone.
pub fn move_attached_ball(ball: &mut Ball, paddle: Vec2i)
    requires
        attachable(paddle),
    ensures
        final(ball).velocity == old(ball).velocity,
        final(ball).attached == old(ball).attached,
        old(ball).attached ==> final(ball).position == attached_position_spec(paddle),
        !old(ball).attached ==> final(ball).position == old(ball).position,
{
    if ball.attached {
        ball.position = Vec2i {
            x: paddle.x,
            y: paddle.y + PADDLE_HEIGHT / 2 + BALL_DIAMETER / 2 + BALL_LIFT,
        };
    }
}

/// On a press of "up", an attached ball is released straight up at full speed
/// and the launched sub-phase is requested.
pub fn handle_ball_launch(up_just_pressed: bool, ball: &mut Ball) -> (r: Option<PlayingState>)
    ensures
        up_just_pressed ==> r == Some(PlayingState::BallLaunched),
        !up_just_pressed ==> r == None::<PlayingState>,
        final(ball).position == old(ball).position,
        up_just_pressed && old(ball).attached ==> !final(ball).attached && final(ball).velocity == (
        Velocity { x: 0, y: BALL_SPEED }),
        !(up_just_pressed && old(ball).attached) ==> *final(ball) == *old(ball),
{
    if up_just_pressed {
        if ball.attached {
            ball.attached = false;
            ball.velocity = Velocity { x: 0, y: BALL_SPEED };
        }
        Some(PlayingState::BallLaunched)
    } else {
        None
    }
}

// ---------------------------------------------------------------------------
// Collision response
/// Number of bricks among the colliders.
pub open spec fn brick_count(cs: Seq<Collider>) -> nat
    decreases cs.len(),
{
    if cs.len() == 0 {
        0
    } else {
        brick_count(cs.drop_last()) + if cs.last().kind == ColliderKind::Brick {
            1nat
        } else {
            0nat
        }
    }
}

/// The response to one collider. Nothing happens once the tick has ended; the
/// floor costs a life and ends the tick; a brick is destroyed and scored, and
/// ends the level when it was the last one counted; the top of the paddle sends
/// the ball off at `bounce`; any other face reflects the ball.
pub open spec fn respond_spec(
    m: ResponseModel,
    ball: BoundingCircle,
    c: Collider,
    bricks: nat,
    bounce: Velocity,
) -> ResponseModel {
    if m.outcome != TickOutcome::Continue {
        m
    } else {
        match ball_collision_spec(ball, c.bounds) {
            None => m,
            Some(side) => {
                if c.kind == ColliderKind::Wall(WallLocation::Bottom) {
                    let l = lose_life_spec(m.lives);
                    ResponseModel {
                        velocity: m.velocity,
                        score: m.score,
                        lives: l,
                        collisions: m.collisions + 1,
                        despawned: m.despawned,
                        outcome: if l == 0 {
                            TickOutcome::GameOver
                        } else {
                            TickOutcome::BallLost
                        },
                    }
                } else if c.kind == ColliderKind::Brick {
                    ResponseModel {
                        velocity: if bricks <= 1 {
                            m.velocity
                        } else {
                            reflect_spec(m.velocity, side)
                        },
                        score: m.score + 1,
                        lives: m.lives,
                        collisions: m.collisions + 1,
                        despawned: m.despawned.push(c.id),
                        outcome: if bricks <= 1 {
                            TickOutcome::Victory
                        } else {
                            TickOutcome::Continue
                        },
                    }
                } else {
                    ResponseModel {
                        velocity: if c.kind == ColliderKind::Paddle && side == Collision::Top {
                            bounce
                        } else {
                            reflect_spec(m.velocity, side)
                        },
                        score: m.score,
                        lives: m.lives,
                        collisions: m.collisions + 1,
                        despawned: m.despawned,
                        outcome: TickOutcome::Continue,
                    }
                }
            },
        }
    }
}

/// The response to the first `n` colliders, in order.
pub open spec fn respond_prefix(
    m: ResponseModel,
    ball: BoundingCircle,
    cs: Seq<Collider>,
    n: nat,
    bricks: nat,
    bounce: Velocity,
) -> ResponseModel
    decreases n,
{
    if n == 0 || n > cs.len() {
        m
    } else {
        respond_spec(respond_prefix(m, ball, cs, (n - 1) as nat, bricks, bounce), ball, cs[n - 1], bricks, bounce)
    }
}

pub open spec fn start_model(v: Velocity, score: nat, lives: nat) -> ResponseModel {
    ResponseModel {
        velocity: v,
        score,
        lives,
        collisions: 0,
        despawned: Seq::empty(),
        outcome: TickOutcome::Continue,
    }
}

/// The collision response of a whole tick: every collider in order, with the
/// bricks counted once before any is destroyed.
pub open spec fn tick_spec(
    ball: Ball,
    cs: Seq<Collider>,
    bounce: Velocity,
    score: nat,
    lives: nat,
) -> ResponseModel {
    respond_prefix(
        start_model(ball.velocity, score, lives),
        ball.circle_spec(),
        cs,
        cs.len(),
        brick_count(cs),
        bounce,
    )
}

pub open spec fn colliders_wf(cs: Seq<Collider>) -> bool {
    forall|i: int| 0 <= i < cs.len() ==> (#[trigger] cs[i]).bounds.wf()
}

fn count_bricks(cs: &Vec<Collider>) -> (r: u64)
    ensures
        r == brick_count(cs@),
{
    let mut n: u64 = 0;
    let mut i: usize = 0;
    while i < cs.len()
        invariant
            i <= cs.len(),
            n == brick_count(cs@.take(i as int)),
            n <= i,
        decreases cs.len() - i,
    {
        assert(cs@.take(i + 1).drop_last() == cs@.take(i as int));
        if cs[i].kind == ColliderKind::Brick {
            n = n + 1;
        }
        i = i + 1;
    }
    assert(cs@.take(cs.len() as int) == cs@);
    n
}

/// Tests the ball against every collider, in order, and responds to each one it
/// touches (see `respond_spec`): the ball's velocity, the score and the lives are
/// updated, and the report says how many collisions there were, which bricks
/// were destroyed and how the tick ended. `paddle_bounce` is the velocity that a
/// hit on the top of the paddle gives the ball.
pub fn check_for_collisions(
    ball: &mut Ball,
    colliders: &Vec<Collider>,
    paddle_bounce: Velocity,
    score: &mut Score,
    lives: &mut Lives,
) -> (r: CollisionReport)
    requires
        old(ball).velocity.wf(),
        paddle_bounce.wf(),
        colliders_wf(colliders@),
        old(score).0 + colliders.len() <= u64::MAX,
    ensures
        ({
            let m = tick_spec(*old(ball), colliders@, paddle_bounce, old(score).0 as nat, old(lives).0 as nat);
            &&& final(ball).velocity == m.velocity
            &&& final(score).0 == m.score
            &&& final(lives).0 == m.lives
            &&& r.collisions == m.collisions
            &&& r.despawned@ == m.despawned
            &&& r.outcome == m.outcome
        }),
        final(ball).position == old(ball).position,
        final(ball).attached == old(ball).attached,
        final(ball).velocity.wf(),
{
    let bricks = count_bricks(colliders);
    let circle = ball.circle();
    let ghost m0 = start_model(ball.velocity, score.0 as nat, lives.0 as nat);
    let ghost s0 = score.0;
    let mut collisions: u64 = 0;
    let mut despawned: Vec<u64> = Vec::new();
    let mut outcome = TickOutcome::Continue;
    let mut i: usize = 0;
    while i < colliders.len()
        invariant
            i <= colliders.len(),
            colliders_wf(colliders@),
            paddle_bounce.wf(),
            circle == ball.circle_spec(),
            circle.wf(),
            bricks == brick_count(colliders@),
            ball.velocity.wf(),
            ball.position == old(ball).position,
            ball.attached == old(ball).attached,
            s0 == old(score).0,
            s0 + colliders.len() <= u64::MAX,
            score.0 <= s0 + i,
            collisions <= i,
            m0 == start_model(old(ball).velocity, old(score).0 as nat, old(lives).0 as nat),
            ({
                let m = respond_prefix(m0, circle, colliders@, i as nat, bricks as nat, paddle_bounce);
                &&& ball.velocity == m.velocity
                &&& score.0 == m.score
                &&& lives.0 == m.lives
                &&& collisions == m.collisions
                &&& despawned@ == m.despawned
                &&& outcome == m.outcome
            }),
        decreases colliders.len() - i,
    {
        let c = colliders[i];
        if outcome == TickOutcome::Continue {
            match ball_collision(circle, c.bounds) {
                None => {},
                Some(side) => {
                    collisions = collisions + 1;
                    if c.kind == ColliderKind::Wall(WallLocation::Bottom) {
                        lives.lose_life();
                        if lives.0 == 0 {
                            outcome = TickOutcome::GameOver;
                        } else {
                            outcome = TickOutcome::BallLost;
                        }
                    } else if c.kind == ColliderKind::Brick {
                        despawned.push(c.id);
                        score.0 = score.0 + 1;
                        if bricks <= 1 {
                            outcome = TickOutcome::Victory;
                        } else {
                            ball.velocity = reflect_velocity(ball.velocity, side);
                        }
                    } else if c.kind == ColliderKind::Paddle && side == Collision::Top {
                        ball.velocity = paddle_bounce;
                    } else {
                        ball.velocity = reflect_velocity(ball.velocity, side);
                    }
                },
            }
        }
        i = i + 1;
    }
    CollisionReport { collisions, despawned, outcome }
}

/// The collision response never lowers the score.
pub proof fn lemma_respond_keeps_score(
    m: ResponseModel,
    ball: BoundingCircle,
    cs: Seq<Collider>,
    n: nat,
    bricks: nat,
    bounce: Velocity,
)
    ensures
        respond_prefix(m, ball, cs, n, bricks, bounce).score >= m.score,
    decreases n,
{
    if n > 0 && n <= cs.len() {
        lemma_respond_keeps_score(m, ball, cs, (n - 1) as nat, bricks, bounce);
    }
}

/// `id` is the identity of a brick among the first `n` colliders.
pub open spec fn is_brick_id(id: u64, cs: Seq<Collider>, n: int) -> bool {
    exists|i: int| 0 <= i < n && (#[trigger] cs[i]).id == id && cs[i].kind == ColliderKind::Brick
}

/// Each identity in `d` is that of a brick among the first `n` colliders.
pub open spec fn all_bricks(d: Seq<u64>, cs: Seq<Collider>, n: int) -> bool {
    forall|k: int| 0 <= k < d.len() ==> #[trigger] is_brick_id(d[k], cs, n)
}

/// Only bricks are destroyed: each destroyed identity is that of a brick among the
/// colliders, and no more are destroyed in a tick than there are bricks.
pub proof fn lemma_only_bricks_destroyed(ball: Ball, cs: Seq<Collider>, bounce: Velocity, score: nat, lives: nat)
    ensures
        tick_spec(ball, cs, bounce, score, lives).despawned.len() <= brick_count(cs),
        all_bricks(tick_spec(ball, cs, bounce, score, lives).despawned, cs, cs.len() as int),
{
    lemma_prefix_destroys_bricks(
        start_model(ball.velocity, score, lives),
        ball.circle_spec(),
        cs,
        cs.len(),
        brick_count(cs),
        bounce,
    );
    assert(cs.take(cs.len() as int) == cs);
}

proof fn lemma_prefix_destroys_bricks(
    m: ResponseModel,
    ball: BoundingCircle,
    cs: Seq<Collider>,
    n: nat,
    bricks: nat,
    bounce: Velocity,
)
    requires
        m.despawned.len() == 0,
        n <= cs.len(),
    ensures
        respond_prefix(m, ball, cs, n, bricks, bounce).despawned.len() <= brick_count(cs.take(n as int)),
        all_bricks(respond_prefix(m, ball, cs, n, bricks, bounce).despawned, cs, n as int),
    decreases n,
{
    if n > 0 {
        lemma_prefix_destroys_bricks(m, ball, cs, (n - 1) as nat, bricks, bounce);
        assert(cs.take(n as int).drop_last() == cs.take(n - 1));
        assert(cs.take(n as int).last() == cs[n - 1]);
        let prev = respond_prefix(m, ball, cs, (n - 1) as nat, bricks, bounce);
        let c = cs[n - 1];
        let d = respond_prefix(m, ball, cs, n, bricks, bounce).despawned;
        assert(d == respond_spec(prev, ball, c, bricks, bounce).despawned);
        let grew = prev.outcome == TickOutcome::Continue && ball_collision_spec(ball, c.bounds)
            is Some && c.kind != ColliderKind::Wall(WallLocation::Bottom) && c.kind
            == ColliderKind::Brick;
        if grew {
            assert(d == prev.despawned.push(c.id));
        } else {
            assert(d == prev.despawned);
        }
        assert forall|k: int| 0 <= k < d.len() implies #[trigger] is_brick_id(d[k], cs, n as int) by {
            if k < prev.despawned.len() {
                assert(d[k] == prev.despawned[k]);
                assert(is_brick_id(prev.despawned[k], cs, n - 1));
                let i = choose|i: int| 0 <= i < n - 1 && (#[trigger] cs[i]).id == prev.despawned[k]
                    && cs[i].kind == ColliderKind::Brick;
                assert(cs[i].id == d[k]);
            } else {
                assert(cs[n - 1].id == d[k]);
            }
        }
        assert(all_bricks(d, cs, n as int));
    } else {
        assert(cs.take(0).len() == 0);
        assert(respond_prefix(m, ball, cs, n, bricks, bounce) == m);
    }
}

/// The inputs of one tick of collision response.
pub struct TickInput {
    pub ball: Ball,
    pub colliders: Seq<Collider>,
    pub bounce: Velocity,
}

/// Score and lives after running the collision response of each tick in turn.
pub open spec fn run_ticks(score: nat, lives: nat, ticks: Seq<TickInput>) -> (nat, nat)
    decreases ticks.len(),
{
    if ticks.len() == 0 {
        (score, lives)
    } else {
        let (s, l) = run_ticks(score, lives, ticks.drop_last());
        let t = ticks.last();
        let m = tick_spec(t.ball, t.colliders, t.bounce, s, l);
        (m.score, m.lives)
    }
}

/// The score never decreases over a sequence of ticks: after any later tick it is
/// at least what it was after an earlier one.
pub proof fn lemma_score_monotonic(score: nat, lives: nat, ticks: Seq<TickInput>, i: nat, j: nat)
    requires
        i <= j <= ticks.len(),
    ensures
        run_ticks(score, lives, ticks.take(i as int)).0 <= run_ticks(score, lives, ticks.take(j as int)).0,
    decreases j,
{
    if i < j {
        let tj = ticks.take(j as int);
        assert(tj.drop_last() == ticks.take(j - 1));
        lemma_score_monotonic(score, lives, ticks, i, (j - 1) as nat);
        let (s, l) = run_ticks(score, lives, ticks.take(j - 1));
        let t = tj.last();
        lemma_respond_keeps_score(
            start_model(t.ball.velocity, s, l),
            t.ball.circle_spec(),
            t.colliders,
            t.colliders.len(),
            brick_count(t.colliders),
            t.bounce,
        );
    }
}

} // verus!
