use pong_core::config::{BALL_SPAWN_SPEED, PADDLE_X_OFFSET};
use pong_core::entities::Side;
use pong_core::phase::GamePhase;
use pong_core::world::{InitError, World};

#[test]
fn arena_bounds_from_800_by_600() {
    let w = World::initialize_match_seeded(800, 600, 0, 0).unwrap();
    assert_eq!(w.bounds.half_width, 400);
    assert_eq!(w.bounds.half_height, 300);
    assert_eq!(w.bounds.paddle_half_height, 75);
    assert_eq!(w.bounds.player_left_x, -400 + PADDLE_X_OFFSET);
    assert_eq!(w.bounds.player_right_x, 400 - PADDLE_X_OFFSET);
}

#[test]
fn arena_bounds_from_1280_by_720() {
    let w = World::initialize_match_seeded(1280, 720, 1000, 0).unwrap();
    assert_eq!(w.bounds.half_width, 640);
    assert_eq!(w.bounds.half_height, 360);
    assert_eq!(w.bounds.paddle_half_height, 90);
    assert_eq!(w.bounds.player_left_x, -570);
    assert_eq!(w.bounds.player_right_x, 570);
}

#[test]
fn start_world_layout() {
    let w = World::initialize_match_seeded(800, 600, 1000, 0).unwrap();
    assert_eq!(w.phase, GamePhase::Start);
    assert_eq!(w.ball.position.x, 0);
    assert_eq!(w.ball.position.y, 0);
    assert_eq!(w.ball.velocity.x, BALL_SPAWN_SPEED);
    assert_eq!(w.ball.velocity.y, 0);
    assert_eq!(w.left_paddle.position.x, -330);
    assert_eq!(w.left_paddle.position.y, 0);
    assert_eq!(w.left_paddle.side, Side::Left);
    assert_eq!(w.right_paddle.position.x, 330);
    assert_eq!(w.right_paddle.side, Side::Right);
    assert_eq!(w.scoreboard.left_score, 0);
    assert_eq!(w.scoreboard.right_score, 0);
}

#[test]
fn zero_width_window_is_rejected() {
    assert_eq!(World::initialize_match(0, 600), Err(InitError::InvalidGeometry));
}

#[test]
fn zero_height_window_is_rejected() {
    assert_eq!(World::initialize_match(800, 0), Err(InitError::InvalidGeometry));
}

#[test]
fn negative_window_is_rejected() {
    assert_eq!(World::initialize_match(-800, -600), Err(InitError::InvalidGeometry));
    assert_eq!(World::initialize_match_seeded(-1, 600, 0, 0), Err(InitError::InvalidGeometry));
}

#[test]
fn random_start_velocity_is_nonzero_and_bounded() {
    for _ in 0..100 {
        let w = World::initialize_match(800, 600).unwrap();
        let v = w.ball.velocity;
        assert!(v.x != 0 || v.y != 0);
        assert!(-BALL_SPAWN_SPEED <= v.x && v.x <= BALL_SPAWN_SPEED);
        assert!(-BALL_SPAWN_SPEED <= v.y && v.y <= BALL_SPAWN_SPEED);
    }
}

#[test]
fn tiny_window_still_initializes() {
    let w = World::initialize_match_seeded(1, 1, 0, 0).unwrap();
    assert_eq!(w.bounds.half_width, 0);
    assert_eq!(w.bounds.half_height, 0);
    assert_eq!(w.bounds.paddle_half_height, 0);
}
