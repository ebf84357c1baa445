use pong_core::config::BALL_SPAWN_SPEED;
use pong_core::direction::{ball_start_velocity, generate_ball_start_direction};

#[test]
fn degenerate_zero_samples_fall_back_to_fixed_direction() {
    let v = ball_start_velocity(0, 0);
    assert_eq!(v.x, BALL_SPAWN_SPEED);
    assert_eq!(v.y, 0);
    assert!(v.x != 0 || v.y != 0);
}

#[test]
fn axis_aligned_samples_reach_full_speed() {
    let v = ball_start_velocity(1000, 0);
    assert_eq!((v.x, v.y), (7, 0));
    let v = ball_start_velocity(0, -1000);
    assert_eq!((v.x, v.y), (0, -7));
    let v = ball_start_velocity(-1000, 0);
    assert_eq!((v.x, v.y), (-7, 0));
}

#[test]
fn three_four_five_samples_normalize_exactly() {
    let v = ball_start_velocity(300, 400);
    assert_eq!((v.x, v.y), (4, 5));
    let v = ball_start_velocity(-300, 400);
    assert_eq!((v.x, v.y), (-4, 5));
    let v = ball_start_velocity(300, -400);
    assert_eq!((v.x, v.y), (4, -5));
    let v = ball_start_velocity(-300, -400);
    assert_eq!((v.x, v.y), (-4, -5));
}

#[test]
fn small_samples_still_give_motion() {
    let v = ball_start_velocity(1, 0);
    assert_eq!((v.x, v.y), (7, 0));
    let v = ball_start_velocity(1, 1);
    assert_eq!((v.x, v.y), (7, 7));
    let v = ball_start_velocity(0, -1);
    assert_eq!((v.x, v.y), (0, -7));
}

#[test]
fn diagonal_samples_normalize_by_rounded_magnitude() {
    // magnitude of (1000, 1000) rounds down to 1414, and 7000 / 1414 == 4.
    let v = ball_start_velocity(1000, 1000);
    assert_eq!((v.x, v.y), (4, 4));
    let v = ball_start_velocity(-600, 800);
    assert_eq!((v.x, v.y), (-4, 5));
}

#[test]
fn generated_direction_is_never_zero_and_bounded() {
    for _ in 0..200 {
        let v = generate_ball_start_direction();
        assert!(v.x != 0 || v.y != 0);
        assert!(-BALL_SPAWN_SPEED <= v.x && v.x <= BALL_SPAWN_SPEED);
        assert!(-BALL_SPAWN_SPEED <= v.y && v.y <= BALL_SPAWN_SPEED);
    }
}
