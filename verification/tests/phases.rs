use pong_core::geometry::Vec2;
use pong_core::phase::GamePhase;
use pong_core::tick::{InputSnapshot, TickEffect};
use pong_core::world::World;

#[test]
fn play_action_starts_the_game() {
    let mut w = World::initialize_match_seeded(800, 600, 1000, 0).unwrap();
    assert_eq!(w.phase, GamePhase::Start);
    let play = InputSnapshot { menu_play: true, ..InputSnapshot::idle() };
    let e = w.tick_seeded(&play, 0, 0);
    assert_eq!(e, TickEffect::PhaseChanged(GamePhase::InGame));
    assert_eq!(w.phase, GamePhase::InGame);
}

#[test]
fn escape_does_not_leave_the_start_menu() {
    let mut w = World::initialize_match_seeded(800, 600, 1000, 0).unwrap();
    let esc = InputSnapshot { escape: true, ..InputSnapshot::idle() };
    let e = w.tick_seeded(&esc, 0, 0);
    assert_eq!(e, TickEffect::Quiet);
    assert_eq!(w.phase, GamePhase::Start);
}

#[test]
fn continue_action_leaves_the_pause_menu() {
    let mut w = World::initialize_match_seeded(800, 600, 1000, 0).unwrap();
    w.phase = GamePhase::MainMenu;
    let cont = InputSnapshot { menu_continue: true, ..InputSnapshot::idle() };
    let e = w.tick_seeded(&cont, 0, 0);
    assert_eq!(e, TickEffect::PhaseChanged(GamePhase::InGame));
    assert_eq!(w.phase, GamePhase::InGame);
}

#[test]
fn escape_leaves_the_pause_menu() {
    let mut w = World::initialize_match_seeded(800, 600, 1000, 0).unwrap();
    w.phase = GamePhase::MainMenu;
    let esc = InputSnapshot { escape: true, ..InputSnapshot::idle() };
    let e = w.tick_seeded(&esc, 0, 0);
    assert_eq!(e, TickEffect::PhaseChanged(GamePhase::InGame));
    assert_eq!(w.phase, GamePhase::InGame);
}

#[test]
fn quit_is_reported_and_leaves_the_phase_alone() {
    let mut w = World::initialize_match_seeded(800, 600, 1000, 0).unwrap();
    let quit = InputSnapshot { menu_quit: true, ..InputSnapshot::idle() };
    let e = w.tick_seeded(&quit, 0, 0);
    assert_eq!(e, TickEffect::QuitRequested);
    assert_eq!(w.phase, GamePhase::Start);
}

#[test]
fn restart_action_requests_a_new_match() {
    let mut w = World::initialize_match_seeded(800, 600, 1000, 0).unwrap();
    w.phase = GamePhase::MainMenu;
    let restart = InputSnapshot { menu_restart: true, ..InputSnapshot::idle() };
    let e = w.tick_seeded(&restart, 0, 0);
    assert_eq!(e, TickEffect::PhaseChanged(GamePhase::Restart));
    assert_eq!(w.phase, GamePhase::Restart);
}

#[test]
fn quit_wins_over_other_menu_actions() {
    let mut w = World::initialize_match_seeded(800, 600, 1000, 0).unwrap();
    let all = InputSnapshot {
        menu_quit: true,
        menu_restart: true,
        menu_play: true,
        ..InputSnapshot::idle()
    };
    let e = w.tick_seeded(&all, 0, 0);
    assert_eq!(e, TickEffect::QuitRequested);
    assert_eq!(w.phase, GamePhase::Start);
}

#[test]
fn movement_keys_do_nothing_in_the_menus() {
    let mut w = World::initialize_match_seeded(800, 600, 1000, 0).unwrap();
    let keys = InputSnapshot { left_up: true, right_down: true, ..InputSnapshot::idle() };
    let e = w.tick_seeded(&keys, 0, 0);
    assert_eq!(e, TickEffect::Quiet);
    assert_eq!(w.left_paddle.position.y, 0);
    assert_eq!(w.right_paddle.position.y, 0);
    assert_eq!(w.ball.position, Vec2 { x: 0, y: 0 });
}

#[test]
fn escape_during_play_is_not_wired() {
    let mut w = World::initialize_match_seeded(800, 600, 1000, 0).unwrap();
    w.phase = GamePhase::InGame;
    let esc = InputSnapshot { escape: true, ..InputSnapshot::idle() };
    let e = w.tick_seeded(&esc, 0, 0);
    assert_eq!(e, TickEffect::Quiet);
    assert_eq!(w.phase, GamePhase::InGame);
}

#[test]
fn open_main_menu_is_the_reserved_pause_transition() {
    let mut w = World::initialize_match_seeded(800, 600, 1000, 0).unwrap();
    w.phase = GamePhase::InGame;
    w.open_main_menu();
    assert_eq!(w.phase, GamePhase::MainMenu);
}

#[test]
fn reset_ball_recenters_and_returns_to_play() {
    let mut w = World::initialize_match_seeded(800, 600, 1000, 0).unwrap();
    w.ball.position = Vec2 { x: 123, y: -45 };
    w.phase = GamePhase::Reset;
    w.reset_ball_seeded(0, 1000);
    assert_eq!(w.phase, GamePhase::InGame);
    assert_eq!(w.ball.position, Vec2 { x: 0, y: 0 });
    assert_eq!(w.ball.velocity, Vec2 { x: 0, y: 7 });
}

#[test]
fn reset_paddles_restores_spawn_positions() {
    let mut w = World::initialize_match_seeded(800, 600, 1000, 0).unwrap();
    w.phase = GamePhase::InGame;
    w.left_paddle.position.y = 150;
    w.right_paddle.position.y = -90;
    w.reset_paddles();
    assert_eq!(w.left_paddle.position, Vec2 { x: -330, y: 0 });
    assert_eq!(w.right_paddle.position, Vec2 { x: 330, y: 0 });
    assert_eq!(w.phase, GamePhase::InGame);
}

#[test]
fn deterministic_phase_sequence_from_start_to_next_round() {
    // Start -> (Play) -> InGame -> (point scored) -> Reset -> InGame,
    // reproducible with seeded direction samples.
    let mut w = World::initialize_match_seeded(800, 600, 1000, 0).unwrap();
    let mut phases = vec![w.phase];
    let play = InputSnapshot { menu_play: true, ..InputSnapshot::idle() };
    w.tick_seeded(&play, 0, 0);
    phases.push(w.phase);
    // park the paddles and drive the ball straight out the right side
    w.left_paddle.position.y = 200;
    w.right_paddle.position.y = 200;
    w.ball.position = Vec2 { x: 380, y: 0 };
    w.ball.velocity = Vec2 { x: 7, y: 0 };
    let e = w.tick_seeded(&InputSnapshot::idle(), 1000, 0);
    assert_eq!(e, TickEffect::PointScored(pong_core::entities::Side::Left));
    phases.push(w.phase);
    assert_eq!(phases, vec![GamePhase::Start, GamePhase::InGame, GamePhase::InGame]);
    // a second run with the same seeds reproduces the same world
    let mut w2 = World::initialize_match_seeded(800, 600, 1000, 0).unwrap();
    w2.tick_seeded(&play, 0, 0);
    w2.left_paddle.position.y = 200;
    w2.right_paddle.position.y = 200;
    w2.ball.position = Vec2 { x: 380, y: 0 };
    w2.ball.velocity = Vec2 { x: 7, y: 0 };
    let e2 = w2.tick_seeded(&InputSnapshot::idle(), 1000, 0);
    assert_eq!(e, e2);
    assert_eq!(w, w2);
}

#[test]
fn accessors_mirror_the_state() {
    let mut w = World::initialize_match_seeded(800, 600, 1000, 0).unwrap();
    w.phase = GamePhase::InGame;
    assert_eq!(w.ball(), w.ball);
    assert_eq!(w.paddle(pong_core::entities::Side::Left), w.left_paddle);
    assert_eq!(w.paddle(pong_core::entities::Side::Right), w.right_paddle);
    assert_eq!(w.scoreboard(), w.scoreboard);
    assert_eq!(w.phase(), GamePhase::InGame);
    assert_eq!(w.bounds(), w.bounds);
}
