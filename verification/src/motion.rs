//! Motion integrator: advances the ball by its velocity once per tick and
//! reflects it off the top and bottom walls.

use vstd::prelude::*;
use vstd::math::abs;
use crate::config::BALL_RADIUS;
use crate::entities::Ball;
use crate::geometry::{ArenaBounds, Vec2};

verus! {

/// Whether a ball standing at height `y` touches or has passed the top or
/// bottom wall of an arena of half-height `half_height`.
pub open spec fn touches_wall(y: int, half_height: int) -> bool {
    y + BALL_RADIUS >= half_height || y - BALL_RADIUS <= -half_height
}

/// One integration step: `position + velocity`, one full velocity unit per
/// tick, then pure reflection of `velocity.y` when the translated ball
/// touches a wall.  No repositioning to the boundary is performed; the ball
/// may sit slightly past the wall for a tick before its velocity takes it
/// clear.
pub open spec fn spec_move_ball(ball: Ball, half_height: int) -> Ball {
    let x = ball.position.x + ball.velocity.x;
    let y = ball.position.y + ball.velocity.y;
    let vy = if touches_wall(y, half_height) {
        -(ball.velocity.y as int)
    } else {
        ball.velocity.y as int
    };
    Ball {
        position: Vec2 { x: x as i64, y: y as i64 },
        velocity: Vec2 { x: ball.velocity.x, y: vy as i64 },
    }
}

/// Advances the ball one tick and reflects it off the horizontal walls.
///
/// A wall bounce flips the sign of `velocity.y` and preserves its magnitude:
/// walls never accelerate the ball.
pub fn move_ball(ball: &mut Ball, bounds: &ArenaBounds)
    requires
        bounds.wf(),
        old(ball).in_range(),
    ensures
        *final(ball) == spec_move_ball(*old(ball), bounds.half_height as int),
        final(ball).velocity.x == old(ball).velocity.x,
        abs(final(ball).velocity.y as int) == abs(old(ball).velocity.y as int),
        old(ball).moving() ==> final(ball).moving(),
{
    ball.position.x = ball.position.x + ball.velocity.x;
    ball.position.y = ball.position.y + ball.velocity.y;
    if ball.position.y + BALL_RADIUS >= bounds.half_height
        || ball.position.y - BALL_RADIUS <= -bounds.half_height
    {
        ball.velocity.y = -ball.velocity.y;
    }
}

/// Law: one wall-reflection event preserves the speed along the vertical
/// axis.  After an integration step in which the ball touches a wall,
/// `velocity.y` has flipped sign and kept its magnitude, and `velocity.x`
/// is untouched; without a wall contact the velocity is unchanged entirely.
pub proof fn lemma_wall_bounce_preserves_speed(ball: Ball, half_height: int)
    requires
        ball.in_range(),
    ensures
        abs(spec_move_ball(ball, half_height).velocity.y as int) == abs(
            ball.velocity.y as int,
        ),
        touches_wall(ball.position.y + ball.velocity.y, half_height) ==> spec_move_ball(
            ball,
            half_height,
        ).velocity.y == -(ball.velocity.y as int),
        !touches_wall(ball.position.y + ball.velocity.y, half_height) ==> spec_move_ball(
            ball,
            half_height,
        ).velocity == ball.velocity,
        spec_move_ball(ball, half_height).velocity.x == ball.velocity.x,
{
}

} // verus!
