use breakout::arena::{Wall, WallLocation};
use breakout::config::{BALL_SPEED, PADDLE_HEIGHT, RELATIVE_HIT_SCALE, SUBPIXELS};
use breakout::geometry::{Aabb2d, Collision, Vec2i};
use breakout::physics::{
    apply_velocity, check_for_collisions, handle_ball_launch, move_attached_ball, move_paddle,
    reflect_velocity, reset_ball, relative_hit, Ball, Collider, ColliderKind, TickOutcome, Velocity,
};
use breakout::state::{Lives, PlayingState, Score};

fn px(v: i32) -> i32 {
    v * SUBPIXELS
}

fn launched_ball(x: i32, y: i32, vx: i32, vy: i32) -> Ball {
    Ball { position: Vec2i::new(px(x), px(y)), velocity: Velocity::new(vx, vy), attached: false }
}

fn brick(id: u64, x: i32, y: i32) -> Collider {
    Collider {
        id,
        bounds: Aabb2d::new(Vec2i::new(px(x), px(y)), Vec2i::new(px(50), px(15))),
        kind: ColliderKind::Brick,
    }
}

fn wall(id: u64, location: WallLocation) -> Collider {
    Collider { id, bounds: Wall::new(location).bounds, kind: ColliderKind::Wall(location) }
}

#[test]
fn reflect_only_when_moving_into_the_face() {
    let v = Velocity::new(300, -200);
    assert_eq!(reflect_velocity(v, Collision::Left), Velocity::new(-300, -200));
    assert_eq!(reflect_velocity(v, Collision::Right), v);
    assert_eq!(reflect_velocity(v, Collision::Top), Velocity::new(300, 200));
    assert_eq!(reflect_velocity(v, Collision::Bottom), v);
}

#[test]
fn reflecting_twice_restores_velocity() {
    let v = Velocity::new(300, -200);
    let once = reflect_velocity(v, Collision::Left);
    assert_eq!(reflect_velocity(once, Collision::Right), v);
    let up = reflect_velocity(v, Collision::Top);
    assert_eq!(reflect_velocity(up, Collision::Bottom), v);
    // A second hit on the same face does not send the ball back in.
    assert_eq!(reflect_velocity(once, Collision::Left), once);
}

#[test]
fn relative_hit_half_way_right() {
    assert_eq!(relative_hit(px(30), 0), 500);
    let angle = (relative_hit(px(30), 0) as f64 / RELATIVE_HIT_SCALE as f64) * std::f64::consts::PI / 3.0;
    let vx = angle.sin() * BALL_SPEED as f64;
    let vy = angle.cos().abs() * BALL_SPEED as f64;
    assert!((vx - BALL_SPEED as f64 * 0.5).abs() < 1.0);
    assert!((vy - BALL_SPEED as f64 * 0.866).abs() < 100.0);
}

#[test]
fn relative_hit_is_clamped_and_signed() {
    assert_eq!(relative_hit(px(-30), 0), -500);
    assert_eq!(relative_hit(px(200), 0), 1000);
    assert_eq!(relative_hit(px(-200), px(10)), -1000);
    assert_eq!(relative_hit(px(10), px(10)), 0);
    assert_eq!(relative_hit(i32::MAX, i32::MIN), 1000);
}

#[test]
fn paddle_moves_and_stays_inside() {
    // 500 px/s for 0.1 s.
    assert_eq!(move_paddle(0, false, true, 100_000), px(50));
    assert_eq!(move_paddle(0, true, false, 100_000), px(-50));
    assert_eq!(move_paddle(px(7), true, true, 100_000), px(7));
    assert_eq!(move_paddle(px(7), false, false, 100_000), px(7));
    assert_eq!(move_paddle(px(370), false, true, 100_000), px(375));
    assert_eq!(move_paddle(px(-370), true, false, 100_000), px(-375));
    assert_eq!(move_paddle(0, false, true, u32::MAX), px(375));
}

#[test]
fn velocity_moves_only_a_launched_ball() {
    let mut b = launched_ball(0, 0, 400_000, -200_000);
    apply_velocity(&mut b, 500_000);
    assert_eq!(b.position, Vec2i::new(px(200), px(-100)));
    let mut a = reset_ball(Vec2i::new(0, px(-240)));
    let before = a;
    apply_velocity(&mut a, 500_000);
    assert_eq!(a, before);
}

#[test]
fn negative_velocity_rounds_toward_zero() {
    let mut b = launched_ball(0, 0, -3, 3);
    apply_velocity(&mut b, 500_000);
    assert_eq!(b.position, Vec2i::new(-1, 1));
}

#[test]
fn attached_ball_follows_paddle_and_launches_up() {
    let paddle = Vec2i::new(px(40), px(-240));
    let mut b = reset_ball(Vec2i::new(0, px(-240)));
    assert_eq!(b.position, Vec2i::new(0, px(-210)));
    move_attached_ball(&mut b, paddle);
    assert_eq!(b.position, Vec2i::new(px(40), px(-240) + PADDLE_HEIGHT / 2 + px(15) + px(5)));
    assert_eq!(handle_ball_launch(false, &mut b), None);
    assert!(b.attached);
    assert_eq!(handle_ball_launch(true, &mut b), Some(PlayingState::BallLaunched));
    assert!(!b.attached);
    assert_eq!(b.velocity, Velocity::new(0, BALL_SPEED));
    let pos = b.position;
    move_attached_ball(&mut b, Vec2i::new(0, 0));
    assert_eq!(b.position, pos);
}

#[test]
fn brick_hit_scores_destroys_and_reflects() {
    let mut b = launched_ball(0, 100, 0, 400_000);
    let colliders = vec![brick(7, 0, 120), brick(8, 300, 120)];
    let mut score = Score(4);
    let mut lives = Lives(3);
    let r = check_for_collisions(&mut b, &colliders, Velocity::new(0, 0), &mut score, &mut lives);
    assert_eq!(r.outcome, TickOutcome::Continue);
    assert_eq!(r.collisions, 1);
    assert_eq!(r.despawned, vec![7]);
    assert_eq!(score, Score(5));
    assert_eq!(lives, Lives(3));
    assert_eq!(b.velocity, Velocity::new(0, -400_000));
    assert_eq!(b.position, Vec2i::new(0, px(100)));
}

#[test]
fn last_brick_wins() {
    // Ten bricks in a row, destroyed one per tick: only the last hit wins.
    let mut colliders: Vec<Collider> = (0..10).map(|i| brick(i, -450 + 100 * i as i32, 200)).collect();
    let mut score = Score(0);
    let mut lives = Lives(3);
    for i in 0..10 {
        let target = colliders[0];
        let mut b = Ball {
            position: Vec2i::new(target.bounds.center.x, target.bounds.center.y - px(20)),
            velocity: Velocity::new(0, 400_000),
            attached: false,
        };
        let r = check_for_collisions(&mut b, &colliders, Velocity::new(0, 0), &mut score, &mut lives);
        assert_eq!(r.despawned, vec![i as u64]);
        if i < 9 {
            assert_eq!(r.outcome, TickOutcome::Continue);
        } else {
            assert_eq!(r.outcome, TickOutcome::Victory);
        }
        colliders.remove(0);
    }
    assert_eq!(score, Score(10));
}

#[test]
fn bottom_wall_costs_a_life_and_stops() {
    let mut b = launched_ball(0, -290, 0, -400_000);
    let colliders = vec![wall(1, WallLocation::Bottom), brick(2, 0, -290)];
    let mut score = Score(0);
    let mut lives = Lives(3);
    let r = check_for_collisions(&mut b, &colliders, Velocity::new(0, 0), &mut score, &mut lives);
    assert_eq!(r.outcome, TickOutcome::BallLost);
    assert_eq!(lives, Lives(2));
    assert_eq!(score, Score(0));
    assert!(r.despawned.is_empty());
    assert_eq!(r.collisions, 1);
}

#[test]
fn last_life_ends_the_game() {
    let mut b = launched_ball(0, -290, 0, -400_000);
    let colliders = vec![wall(1, WallLocation::Bottom)];
    let mut score = Score(3);
    let mut lives = Lives(1);
    let r = check_for_collisions(&mut b, &colliders, Velocity::new(0, 0), &mut score, &mut lives);
    assert_eq!(r.outcome, TickOutcome::GameOver);
    assert_eq!(lives, Lives(0));
    let mut lives0 = Lives(0);
    let r = check_for_collisions(&mut b, &colliders, Velocity::new(0, 0), &mut score, &mut lives0);
    assert_eq!(r.outcome, TickOutcome::GameOver);
    assert_eq!(lives0, Lives(0));
}

#[test]
fn paddle_top_uses_bounce_and_side_walls_reflect() {
    let paddle = Collider {
        id: 3,
        bounds: Aabb2d::new(Vec2i::new(0, px(-240)), Vec2i::new(px(60), px(10))),
        kind: ColliderKind::Paddle,
    };
    let mut b = launched_ball(30, -220, 0, -400_000);
    let mut score = Score(0);
    let mut lives = Lives(3);
    let bounce = Velocity::new(200_000, 346_410);
    let r = check_for_collisions(&mut b, &vec![paddle], bounce, &mut score, &mut lives);
    assert_eq!(r.outcome, TickOutcome::Continue);
    assert_eq!(b.velocity, bounce);

    let mut side = launched_ball(-440, 0, -100_000, 50_000);
    let r = check_for_collisions(&mut side, &vec![wall(4, WallLocation::Left)], bounce, &mut score, &mut lives);
    assert_eq!(r.collisions, 1);
    assert_eq!(side.velocity, Velocity::new(100_000, 50_000));
}

#[test]
fn no_contact_changes_nothing() {
    let mut b = launched_ball(0, 0, 10, 10);
    let colliders = vec![wall(1, WallLocation::Bottom), wall(2, WallLocation::Top), brick(3, 200, 200)];
    let mut score = Score(1);
    let mut lives = Lives(2);
    let r = check_for_collisions(&mut b, &colliders, Velocity::new(5, 5), &mut score, &mut lives);
    assert_eq!(r.collisions, 0);
    assert_eq!(r.outcome, TickOutcome::Continue);
    assert_eq!(b.velocity, Velocity::new(10, 10));
    assert_eq!((score, lives), (Score(1), Lives(2)));
}

#[test]
fn score_never_decreases_over_ticks() {
    let mut colliders: Vec<Collider> = (0..4).map(|i| brick(i, -300 + 200 * i as i32, 100)).collect();
    colliders.push(wall(9, WallLocation::Top));
    let mut score = Score(0);
    let mut lives = Lives(3);
    let mut last = 0;
    for step in 0..8 {
        let x = -300 + 100 * step;
        let mut b = launched_ball(x, 80, 0, 400_000);
        check_for_collisions(&mut b, &colliders, Velocity::new(0, 0), &mut score, &mut lives);
        assert!(score.0 >= last);
        last = score.0;
    }
    assert!(last > 0);
}
