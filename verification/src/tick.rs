//! One simulated tick: the phase machine gates execution, and under
//! `InGame` the components run in fixed order — paddle controller, motion
//! integrator, collision resolver, scoring — on a single logical thread.

use vstd::prelude::*;
use crate::collision::{check_collisions, spec_check_collisions};
use crate::config::DIRECTION_SCALE;
use crate::direction::{sample_in_range, valid_sample};
use crate::entities::{Paddle, Side};
use crate::geometry::Vec2;
use crate::motion::{move_ball, spec_move_ball};
use crate::paddle::{apply_paddle_input, spec_paddle_step};
use crate::phase::GamePhase;
use crate::scoring::{award_point, check_exit, spec_award_point, spec_exit_side};
use crate::world::World;

verus! {

/// A non-blocking snapshot of the input devices, taken once per tick by the
/// host: which movement keys are held, and which menu actions fired.
#[derive(Clone, Copy, Debug, PartialEq, Eq, Structural)]
pub struct InputSnapshot {
    /// Left player's "up" key is held.
    pub left_up: bool,
    /// Left player's "down" key is held.
    pub left_down: bool,
    /// Right player's "up" key is held.
    pub right_up: bool,
    /// Right player's "down" key is held.
    pub right_down: bool,
    /// Escape was just pressed.
    pub escape: bool,
    /// The "Play" menu button was activated.
    pub menu_play: bool,
    /// The "Continue" menu button was activated.
    pub menu_continue: bool,
    /// The "Restart" menu action was activated.
    pub menu_restart: bool,
    /// The "Quit" menu button was activated.
    pub menu_quit: bool,
}

impl InputSnapshot {
    /// A snapshot with no key held and no menu action fired.
    pub fn idle() -> (s: InputSnapshot)
        ensures
            s == (InputSnapshot {
                left_up: false,
                left_down: false,
                right_up: false,
                right_down: false,
                escape: false,
                menu_play: false,
                menu_continue: false,
                menu_restart: false,
                menu_quit: false,
            }),
    {
        InputSnapshot {
            left_up: false,
            left_down: false,
            right_up: false,
            right_down: false,
            escape: false,
            menu_play: false,
            menu_continue: false,
            menu_restart: false,
            menu_quit: false,
        }
    }
}

/// The externally visible side effect of one tick.
#[derive(Clone, Copy, Debug, PartialEq, Eq, Structural)]
pub enum TickEffect {
    /// Nothing observable happened.
    Quiet,
    /// The given player scored; the ball has already been reset.
    PointScored(Side),
    /// The phase register changed to the given phase.
    PhaseChanged(GamePhase),
    /// The host was asked to exit.
    QuitRequested,
}

/// One tick of menu interaction, for the menu phases.  Quit is reported
/// first, then Restart; `Start` leaves for `InGame` on Play, `MainMenu` on
/// Continue or Escape (Escape is only meaningful from `MainMenu`).  The
/// most recent transition request in a tick wins, so at most one fires.
pub open spec fn spec_menu_step(phase: GamePhase, input: InputSnapshot) -> (GamePhase, TickEffect) {
    if input.menu_quit && phase.is_menu() {
        (phase, TickEffect::QuitRequested)
    } else if input.menu_restart && phase.is_menu() {
        (GamePhase::Restart, TickEffect::PhaseChanged(GamePhase::Restart))
    } else if phase is Start && input.menu_play {
        (GamePhase::InGame, TickEffect::PhaseChanged(GamePhase::InGame))
    } else if phase is MainMenu && (input.menu_continue || input.escape) {
        (GamePhase::InGame, TickEffect::PhaseChanged(GamePhase::InGame))
    } else {
        (phase, TickEffect::Quiet)
    }
}

/// One tick of active play: both paddles take their clamped steps, the ball
/// integrates and reflects off the walls, the collision resolver may bounce
/// it off a paddle (left paddle first), and scoring checks the exit bounds.
/// On a point, the scorer is credited, the phase passes through `Reset`,
/// and the ball reset brings it straight back to `InGame` within the tick.
pub open spec fn spec_play_step(w: World, input: InputSnapshot, sx: int, sy: int) -> (
    World,
    TickEffect,
) {
    let left = Paddle {
        position: Vec2 {
            x: w.left_paddle.position.x,
            y: spec_paddle_step(
                w.left_paddle.position.y as int,
                input.left_up,
                input.left_down,
                w.bounds,
            ) as i64,
        },
        side: w.left_paddle.side,
    };
    let right = Paddle {
        position: Vec2 {
            x: w.right_paddle.position.x,
            y: spec_paddle_step(
                w.right_paddle.position.y as int,
                input.right_up,
                input.right_down,
                w.bounds,
            ) as i64,
        },
        side: w.right_paddle.side,
    };
    let moved = spec_move_ball(w.ball, w.bounds.half_height as int);
    let bounced = spec_check_collisions(moved, left, right, w.bounds.paddle_half_height as int);
    let played = World { ball: bounced, left_paddle: left, right_paddle: right, ..w };
    match spec_exit_side(bounced, w.bounds.half_width as int) {
        Some(side) => {
            let scored = World {
                scoreboard: spec_award_point(w.scoreboard, side),
                phase: GamePhase::Reset,
                ..played
            };
            (scored.spec_enter_reset(sx, sy), TickEffect::PointScored(side))
        },
        None => (played, TickEffect::Quiet),
    }
}

/// The full transition function of one tick: menu interaction outside
/// `InGame`, the simulation under it.
pub open spec fn spec_tick(w: World, input: InputSnapshot, sx: int, sy: int) -> (
    World,
    TickEffect,
) {
    if w.phase is InGame {
        spec_play_step(w, input, sx, sy)
    } else {
        let stepped = spec_menu_step(w.phase, input);
        (World { phase: stepped.0, ..w }, stepped.1)
    }
}

impl World {
    /// One simulated tick with the ball-reset direction samples supplied by
    /// the caller, for deterministic replay.  The world steps exactly by
    /// `spec_tick`.
    pub fn tick_seeded(&mut self, input: &InputSnapshot, sx: i64, sy: i64) -> (e: TickEffect)
        requires
            old(self).wf(),
            old(self).ball.in_range(),
            old(self).scoreboard.can_score(),
            old(self).phase.accepts_tick(),
            valid_sample(sx as int),
            valid_sample(sy as int),
        ensures
            *final(self) == spec_tick(*old(self), *input, sx as int, sy as int).0,
            e == spec_tick(*old(self), *input, sx as int, sy as int).1,
            final(self).wf(),
            final(self).phase !is Reset,
            e is PointScored ==> final(self).phase is InGame,
            final(self).scoreboard.left_score >= old(self).scoreboard.left_score,
            final(self).scoreboard.right_score >= old(self).scoreboard.right_score,
            final(self).bounds == old(self).bounds,
    {
        let phase = self.phase;
        if phase == GamePhase::InGame {
            apply_paddle_input(&mut self.left_paddle, &self.bounds, input.left_up, input.left_down);
            apply_paddle_input(
                &mut self.right_paddle,
                &self.bounds,
                input.right_up,
                input.right_down,
            );
            move_ball(&mut self.ball, &self.bounds);
            check_collisions(&mut self.ball, &self.left_paddle, &self.right_paddle, &self.bounds);
            match check_exit(&self.ball, &self.bounds) {
                Some(side) => {
                    award_point(&mut self.scoreboard, side);
                    self.phase = GamePhase::Reset;
                    self.reset_ball_seeded(sx, sy);
                    TickEffect::PointScored(side)
                },
                None => TickEffect::Quiet,
            }
        } else if input.menu_quit && (phase == GamePhase::Start || phase == GamePhase::MainMenu) {
            TickEffect::QuitRequested
        } else if input.menu_restart && (phase == GamePhase::Start || phase == GamePhase::MainMenu) {
            self.phase = GamePhase::Restart;
            TickEffect::PhaseChanged(GamePhase::Restart)
        } else if phase == GamePhase::Start && input.menu_play {
            self.phase = GamePhase::InGame;
            TickEffect::PhaseChanged(GamePhase::InGame)
        } else if phase == GamePhase::MainMenu && (input.menu_continue || input.escape) {
            self.phase = GamePhase::InGame;
            TickEffect::PhaseChanged(GamePhase::InGame)
        } else {
            TickEffect::Quiet
        }
    }

    /// One simulated tick.  The timestep argument is ignored by design: one
    /// full velocity unit is applied per call, so simulation speed follows
    /// the host's tick rate.  The world steps exactly by `spec_tick` for
    /// some pair of freshly drawn direction samples.
    pub fn tick(&mut self, input: &InputSnapshot, _dt_ignored: u64) -> (e: TickEffect)
        requires
            old(self).wf(),
            old(self).ball.in_range(),
            old(self).scoreboard.can_score(),
            old(self).phase.accepts_tick(),
        ensures
            exists|sx: int, sy: int|
                valid_sample(sx) && valid_sample(sy) && *final(self) == #[trigger] spec_tick(
                    *old(self),
                    *input,
                    sx,
                    sy,
                ).0 && e == spec_tick(*old(self), *input, sx, sy).1,
            final(self).wf(),
            final(self).phase !is Reset,
            e is PointScored ==> final(self).phase is InGame,
            final(self).scoreboard.left_score >= old(self).scoreboard.left_score,
            final(self).scoreboard.right_score >= old(self).scoreboard.right_score,
            final(self).bounds == old(self).bounds,
    {
        let sx = sample_in_range(-DIRECTION_SCALE, DIRECTION_SCALE);
        let sy = sample_in_range(-DIRECTION_SCALE, DIRECTION_SCALE);
        let e = self.tick_seeded(input, sx, sy);
        proof {
            assert(valid_sample(sx as int) && valid_sample(sy as int) && *self == spec_tick(
                *old(self),
                *input,
                sx as int,
                sy as int,
            ).0 && e == spec_tick(*old(self), *input, sx as int, sy as int).1);
        }
        e
    }
}

/// Law: `Reset` is transient.  No tick taken from a running phase leaves
/// the phase register at `Reset`, and a tick that scores — the only way to
/// enter `Reset` — ends with the very next phase read giving `InGame`.
pub proof fn lemma_reset_is_transient(w: World, input: InputSnapshot, sx: int, sy: int)
    requires
        w.phase.accepts_tick(),
    ensures
        spec_tick(w, input, sx, sy).0.phase !is Reset,
        spec_tick(w, input, sx, sy).1 is PointScored ==> spec_tick(w, input, sx, sy).0.phase
            is InGame,
{
}

} // verus!
