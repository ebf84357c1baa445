//! The simulation context: arena, entities and the phase register, owned as
//! one value and passed explicitly into every operation.  Each field is
//! written by exactly one component per tick.

use vstd::prelude::*;
use crate::config::{BALL_SPAWN_SPEED, DIRECTION_SCALE};
use crate::direction::{ball_start_velocity, sample_in_range, spec_start_velocity, valid_sample};
use crate::entities::{Ball, Paddle, Scoreboard, Side};
use crate::geometry::{ArenaBounds, Vec2};
use crate::phase::GamePhase;

verus! {

/// Failure to start a match.
#[derive(Clone, Copy, Debug, PartialEq, Eq, Structural)]
pub enum InitError {
    /// The window's width or height was not positive, so no arena geometry
    /// can be derived.
    InvalidGeometry,
}

/// The whole simulation state for one match.
#[derive(Clone, Copy, Debug, PartialEq, Eq, Structural)]
pub struct World {
    pub bounds: ArenaBounds,
    pub ball: Ball,
    pub left_paddle: Paddle,
    pub right_paddle: Paddle,
    pub scoreboard: Scoreboard,
    pub phase: GamePhase,
}

impl World {
    /// Structural invariant: well-formed arena, each paddle on its own side
    /// and clamped into the arena, and a ball that is never at rest.
    pub open spec fn wf(self) -> bool {
        &&& self.bounds.wf()
        &&& self.left_paddle.side is Left
        &&& self.right_paddle.side is Right
        &&& self.left_paddle.wf(self.bounds)
        &&& self.right_paddle.wf(self.bounds)
        &&& self.ball.moving()
    }

    /// The world a match starts from, given the arena and the ball's start
    /// velocity: ball at the origin, paddles centered on their columns,
    /// scores zero, phase `Start`.
    pub open spec fn spec_start_world(bounds: ArenaBounds, velocity: Vec2) -> World {
        World {
            bounds,
            ball: Ball { position: Vec2 { x: 0, y: 0 }, velocity },
            left_paddle: Paddle {
                position: Vec2 { x: bounds.player_left_x, y: 0 },
                side: Side::Left,
            },
            right_paddle: Paddle {
                position: Vec2 { x: bounds.player_right_x, y: 0 },
                side: Side::Right,
            },
            scoreboard: Scoreboard { left_score: 0, right_score: 0 },
            phase: GamePhase::Start,
        }
    }

    /// The world after the ball reset performed on entering `Reset`: ball
    /// back at the origin with the start velocity formed from the given
    /// samples, phase handed straight back to `InGame`.  Paddles and scores
    /// are untouched: a point resets only the ball.
    pub open spec fn spec_enter_reset(self, sx: int, sy: int) -> World {
        World {
            ball: Ball { position: Vec2 { x: 0, y: 0 }, velocity: spec_start_velocity(sx, sy) },
            phase: GamePhase::InGame,
            ..self
        }
    }

    /// Assembles the start-of-match world.
    fn start_world(bounds: ArenaBounds, velocity: Vec2) -> (w: World)
        requires
            bounds.wf(),
            velocity.x != 0 || velocity.y != 0,
            -BALL_SPAWN_SPEED <= velocity.x <= BALL_SPAWN_SPEED,
            -BALL_SPAWN_SPEED <= velocity.y <= BALL_SPAWN_SPEED,
        ensures
            w == World::spec_start_world(bounds, velocity),
            w.wf(),
            w.ball.in_range(),
            w.scoreboard.can_score(),
    {
        World {
            bounds,
            ball: Ball { position: Vec2 { x: 0, y: 0 }, velocity },
            left_paddle: Paddle {
                position: Vec2 { x: bounds.player_left_x, y: 0 },
                side: Side::Left,
            },
            right_paddle: Paddle {
                position: Vec2 { x: bounds.player_right_x, y: 0 },
                side: Side::Right,
            },
            scoreboard: Scoreboard { left_score: 0, right_score: 0 },
            phase: GamePhase::Start,
        }
    }

    /// Starts a match for a window of the given dimensions, with the ball's
    /// start direction drawn from the generator.  Fails exactly on windows
    /// without positive area.
    pub fn initialize_match(width: i32, height: i32) -> (r: Result<World, InitError>)
        ensures
            r is Ok <==> width > 0 && height > 0,
            r is Err <==> r == Result::<World, InitError>::Err(InitError::InvalidGeometry)
                && (width <= 0 || height <= 0),
            r matches Ok(w) ==> exists|sx: int, sy: int|
                valid_sample(sx) && valid_sample(sy) && w == #[trigger] World::spec_start_world(
                    ArenaBounds::spec_from_window(width as int, height as int),
                    spec_start_velocity(sx, sy),
                ),
            r matches Ok(w) ==> w.wf() && w.ball.in_range() && w.scoreboard.can_score()
                && w.phase is Start,
    {
        if width <= 0 || height <= 0 {
            return Err(InitError::InvalidGeometry);
        }
        let bounds = ArenaBounds::from_window(width, height);
        let sx = sample_in_range(-DIRECTION_SCALE, DIRECTION_SCALE);
        let sy = sample_in_range(-DIRECTION_SCALE, DIRECTION_SCALE);
        let velocity = ball_start_velocity(sx, sy);
        let w = World::start_world(bounds, velocity);
        proof {
            assert(valid_sample(sx as int) && valid_sample(sy as int)
                && w == World::spec_start_world(
                ArenaBounds::spec_from_window(width as int, height as int),
                spec_start_velocity(sx as int, sy as int),
            ));
        }
        Ok(w)
    }

    /// Starts a match with the ball's start direction formed from the given
    /// samples instead of drawn ones, for deterministic replay.
    pub fn initialize_match_seeded(width: i32, height: i32, sx: i64, sy: i64) -> (r: Result<
        World,
        InitError,
    >)
        requires
            valid_sample(sx as int),
            valid_sample(sy as int),
        ensures
            r is Ok <==> width > 0 && height > 0,
            r matches Ok(w) ==> w == World::spec_start_world(
                ArenaBounds::spec_from_window(width as int, height as int),
                spec_start_velocity(sx as int, sy as int),
            ),
            r matches Ok(w) ==> w.wf() && w.ball.in_range() && w.scoreboard.can_score()
                && w.phase is Start,
    {
        if width <= 0 || height <= 0 {
            return Err(InitError::InvalidGeometry);
        }
        let bounds = ArenaBounds::from_window(width, height);
        let velocity = ball_start_velocity(sx, sy);
        Ok(World::start_world(bounds, velocity))
    }

    /// The ball reset run on entering `Reset`: repositions the ball to the
    /// origin, resamples its velocity from the given samples, and hands the
    /// phase straight back to `InGame` so that `Reset` never outlives the
    /// tick that entered it.
    pub fn reset_ball_seeded(&mut self, sx: i64, sy: i64)
        requires
            old(self).phase is Reset,
            valid_sample(sx as int),
            valid_sample(sy as int),
        ensures
            *final(self) == old(self).spec_enter_reset(sx as int, sy as int),
            final(self).phase is InGame,
            final(self).ball.moving(),
            final(self).ball.in_range(),
    {
        self.ball.position = Vec2 { x: 0, y: 0 };
        self.ball.velocity = ball_start_velocity(sx, sy);
        self.phase = GamePhase::InGame;
    }

    /// The ball reset run on entering `Reset`, with the start direction
    /// drawn from the generator.
    pub fn reset_ball(&mut self)
        requires
            old(self).phase is Reset,
        ensures
            exists|sx: int, sy: int|
                valid_sample(sx) && valid_sample(sy) && *final(self) == #[trigger] old(
                    self,
                ).spec_enter_reset(sx, sy),
            final(self).phase is InGame,
            final(self).ball.moving(),
            final(self).ball.in_range(),
    {
        let sx = sample_in_range(-DIRECTION_SCALE, DIRECTION_SCALE);
        let sy = sample_in_range(-DIRECTION_SCALE, DIRECTION_SCALE);
        self.reset_ball_seeded(sx, sy);
        proof {
            assert(valid_sample(sx as int) && valid_sample(sy as int) && *self == old(
                self,
            ).spec_enter_reset(sx as int, sy as int));
        }
    }

    /// Full-match paddle reset: repositions both paddles to their spawn
    /// points and returns to `InGame`.  A defined but unwired capability,
    /// reserved for a future first-to-N rule; the default per-point cycle
    /// resets only the ball.
    pub fn reset_paddles(&mut self)
        requires
            old(self).wf(),
            old(self).phase is Reset || old(self).phase is InGame,
        ensures
            final(self).left_paddle == (Paddle {
                position: Vec2 { x: old(self).bounds.player_left_x, y: 0 },
                side: Side::Left,
            }),
            final(self).right_paddle == (Paddle {
                position: Vec2 { x: old(self).bounds.player_right_x, y: 0 },
                side: Side::Right,
            }),
            final(self).phase is InGame,
            final(self).ball == old(self).ball,
            final(self).scoreboard == old(self).scoreboard,
            final(self).bounds == old(self).bounds,
            final(self).wf(),
    {
        self.left_paddle = Paddle {
            position: Vec2 { x: self.bounds.player_left_x, y: 0 },
            side: Side::Left,
        };
        self.right_paddle = Paddle {
            position: Vec2 { x: self.bounds.player_right_x, y: 0 },
            side: Side::Right,
        };
        self.phase = GamePhase::InGame;
    }

    /// Reserved pause transition: escape from active play into the pause
    /// menu.  Defined here but not wired into the default tick.
    pub fn open_main_menu(&mut self)
        requires
            old(self).phase is InGame,
        ensures
            *final(self) == (World { phase: GamePhase::MainMenu, ..*old(self) }),
    {
        self.phase = GamePhase::MainMenu;
    }

    /// Read accessor for the ball.
    pub fn ball(&self) -> (b: Ball)
        ensures
            b == self.ball,
    {
        self.ball
    }

    /// Read accessor for the paddle of the given side.
    pub fn paddle(&self, side: Side) -> (p: Paddle)
        ensures
            p == if side is Left {
                self.left_paddle
            } else {
                self.right_paddle
            },
    {
        match side {
            Side::Left => self.left_paddle,
            Side::Right => self.right_paddle,
        }
    }

    /// Read accessor for the scoreboard.
    pub fn scoreboard(&self) -> (s: Scoreboard)
        ensures
            s == self.scoreboard,
    {
        self.scoreboard
    }

    /// Read accessor for the current phase.
    pub fn phase(&self) -> (p: GamePhase)
        ensures
            p == self.phase,
    {
        self.phase
    }

    /// Read accessor for the arena geometry.
    pub fn bounds(&self) -> (b: ArenaBounds)
        ensures
            b == self.bounds,
    {
        self.bounds
    }
}

} // verus!
