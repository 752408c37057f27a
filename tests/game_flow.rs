use breakout::arena::{paddle_y, Wall, WallLocation};
use breakout::config::{BALL_RADIUS, SUBPIXELS};
use breakout::flow::GameFlow;
use breakout::geometry::Vec2i;
use breakout::layout::{brick_layout, setup_game};
use breakout::physics::{check_for_collisions, Ball, Collider, ColliderKind, TickOutcome, Velocity};
use breakout::state::{reset_game_state, GameState, Level, Lives, PlayingState, Score};

fn px(v: i32) -> i32 {
    v * SUBPIXELS
}

fn playing_flow() -> GameFlow {
    let mut f = GameFlow::new();
    f.handle_menu_input(true);
    f.apply_transitions();
    f.handle_level_select_input(Some(Level::Level2));
    let e = f.apply_transitions();
    assert!(e.spawn_gameplay);
    f
}

#[test]
fn lives_saturate_at_zero() {
    let mut lives = Lives::default();
    assert_eq!(lives, Lives(3));
    let expected = [2, 1, 0, 0, 0];
    for want in expected {
        lives.lose_life();
        assert_eq!(lives.0, want);
    }
}

#[test]
fn menu_entry_resets_counters() {
    let mut score = Score(12);
    let mut lives = Lives(0);
    let mut playing = PlayingState::BallLaunched;
    reset_game_state(&mut score, &mut lives, &mut playing);
    assert_eq!((score, lives, playing), (Score(0), Lives(3), PlayingState::BallAttached));
}

#[test]
fn flow_walks_menu_to_play() {
    let mut f = GameFlow::new();
    assert_eq!(f.state, GameState::Menu);
    f.handle_menu_input(false);
    assert_eq!(f.apply_transitions().entered, None);
    f.handle_menu_input(true);
    let e = f.apply_transitions();
    assert_eq!(e.exited, Some(GameState::Menu));
    assert_eq!(e.entered, Some(GameState::LevelSelect));
    assert!(!e.spawn_gameplay && !e.despawn_gameplay);
    f.handle_level_select_input(Some(Level::Level2));
    assert_eq!(f.state, GameState::LevelSelect);
    let e = f.apply_transitions();
    assert_eq!(f.state, GameState::Playing);
    assert_eq!(f.level, Level::Level2);
    assert_eq!(f.playing, PlayingState::BallAttached);
    assert!(e.spawn_gameplay);
    assert!(!e.respawn_ball);
}

#[test]
fn lost_ball_respawns_while_lives_remain() {
    let mut f = playing_flow();
    f.request_playing(PlayingState::BallLaunched);
    f.apply_transitions();
    assert_eq!(f.playing, PlayingState::BallLaunched);
    f.handle_tick_outcome(TickOutcome::BallLost);
    let e = f.apply_transitions();
    assert!(e.respawn_ball);
    assert_eq!(f.playing, PlayingState::BallAttached);
    assert_eq!(f.state, GameState::Playing);
}

#[test]
fn last_life_requests_game_over_without_respawn() {
    let mut f = playing_flow();
    f.request_playing(PlayingState::BallLaunched);
    f.apply_transitions();
    f.lives = Lives(1);
    let field = setup_game(f.level);
    let bottom = field.walls[2];
    assert_eq!(bottom.location, WallLocation::Bottom);
    let colliders = vec![Collider { id: 1, bounds: bottom.bounds, kind: ColliderKind::Wall(WallLocation::Bottom) }];
    let mut ball = Ball {
        position: Vec2i::new(0, px(-300) + BALL_RADIUS),
        velocity: Velocity::new(0, -400_000),
        attached: false,
    };
    let r = check_for_collisions(&mut ball, &colliders, Velocity::new(0, 0), &mut f.score, &mut f.lives);
    assert_eq!(r.outcome, TickOutcome::GameOver);
    assert_eq!(f.lives, Lives(0));
    f.handle_tick_outcome(r.outcome);
    assert_eq!(f.next_state, Some(GameState::GameOver));
    let e = f.apply_transitions();
    assert_eq!(f.state, GameState::GameOver);
    assert!(e.despawn_gameplay);
    assert!(!e.respawn_ball);
    assert!(!e.spawn_gameplay);
}

#[test]
fn victory_then_back_to_menu_resets() {
    let mut f = playing_flow();
    f.score = Score(56);
    f.lives = Lives(2);
    f.handle_tick_outcome(TickOutcome::Victory);
    let e = f.apply_transitions();
    assert_eq!(f.state, GameState::Victory);
    assert!(e.despawn_gameplay);
    assert_eq!(f.score, Score(56));
    f.handle_victory_input(true);
    let e = f.apply_transitions();
    assert_eq!(e.entered, Some(GameState::Menu));
    assert_eq!(f.state, GameState::Menu);
    assert_eq!((f.score, f.lives, f.playing), (Score(0), Lives(3), PlayingState::BallAttached));
    assert_eq!(f.next_state, None);
}

#[test]
fn continue_outcome_requests_nothing() {
    let mut f = playing_flow();
    let before = f;
    f.handle_tick_outcome(TickOutcome::Continue);
    assert_eq!(f, before);
}

#[test]
fn brick_grid_sizes_per_level() {
    assert_eq!(brick_layout(Level::Level1).len(), 24);
    assert_eq!(brick_layout(Level::Level2).len(), 56);
}

#[test]
fn brick_grid_positions() {
    let g = brick_layout(Level::Level2);
    assert_eq!(g[0], Vec2i::new(-367_500, 45_000));
    assert_eq!(g[1], Vec2i::new(-262_500, 45_000));
    assert_eq!(g[7], Vec2i::new(367_500, 45_000));
    assert_eq!(g[8], Vec2i::new(-367_500, 80_000));
    assert_eq!(g[55], Vec2i::new(367_500, 45_000 + 6 * 35_000));
    // The grid is centered between the walls.
    assert_eq!(g[0].x + g[7].x, 0);
    assert_eq!(brick_layout(Level::Level1)[..], g[..24]);
}

#[test]
fn setup_places_paddle_ball_and_walls() {
    let field = setup_game(Level::Level1);
    assert_eq!(paddle_y(), px(-240));
    assert_eq!(field.paddle, Vec2i::new(0, px(-240)));
    assert_eq!(field.ball.position, Vec2i::new(0, px(-210)));
    assert!(field.ball.attached);
    assert_eq!(field.walls.len(), 4);
    assert_eq!(field.walls[0], Wall::new(WallLocation::Left));
    assert_eq!(field.walls[0].bounds.half_size, Vec2i::new(px(5), px(305)));
    assert_eq!(field.walls[3].bounds.center, Vec2i::new(0, px(300)));
    assert_eq!(field.walls[3].bounds.half_size, Vec2i::new(px(455), px(5)));
    assert_eq!(field.bricks.len(), 24);
}

#[test]
fn wall_geometry() {
    assert_eq!(WallLocation::Right.position(), Vec2i::new(px(450), 0));
    assert_eq!(WallLocation::Bottom.position(), Vec2i::new(0, px(-300)));
    assert_eq!(WallLocation::Left.size(), Vec2i::new(px(10), px(610)));
    assert_eq!(WallLocation::Top.size(), Vec2i::new(px(910), px(10)));
}
