//! Collision resolver: paddle/ball contact detection and response, with the
//! single-axis `else if` response and the acceleration-on-bounce rule.

use vstd::prelude::*;
use vstd::math::abs;
use crate::config::{BALL_ACCEL, BALL_RADIUS, COORD_LIMIT, PADDLE_HALF_WIDTH};
use crate::entities::{Ball, Paddle};
use crate::geometry::{ArenaBounds, Vec2};

verus! {

/// Axis-aligned overlap of the ball's square bounding box with a paddle's
/// box; all four inequalities must hold simultaneously.
pub open spec fn spec_overlaps(ball: Ball, paddle: Paddle, paddle_half_height: int) -> bool {
    &&& ball.position.x + BALL_RADIUS >= paddle.position.x - PADDLE_HALF_WIDTH
    &&& ball.position.y - BALL_RADIUS <= paddle.position.y + paddle_half_height
    &&& ball.position.y + BALL_RADIUS >= paddle.position.y - paddle_half_height
    &&& ball.position.x - BALL_RADIUS <= paddle.position.x + PADDLE_HALF_WIDTH
}

/// Side-selection heuristic for a horizontal-side bounce: the ball moves
/// toward the paddle's center along x.
pub open spec fn spec_x_bounce(ball: Ball, paddle: Paddle) -> bool {
    ||| ball.velocity.x > 0 && ball.position.x < paddle.position.x
    ||| ball.velocity.x < 0 && ball.position.x > paddle.position.x
}

/// Side-selection heuristic for a vertical-side bounce: the ball moves
/// toward the paddle's center along y.
pub open spec fn spec_y_bounce(ball: Ball, paddle: Paddle) -> bool {
    ||| ball.velocity.y < 0 && ball.position.y > paddle.position.y
    ||| ball.velocity.y > 0 && ball.position.y < paddle.position.y
}

/// Bounce response along one axis: negate the component, then apply the
/// fixed acceleration increment in the direction of the new component.
pub open spec fn spec_reverse_accelerate(v: int) -> int {
    if -v < 0 {
        -v - BALL_ACCEL
    } else {
        -v + BALL_ACCEL
    }
}

/// Response of the ball to one paddle.  On overlap, exactly one axis
/// responds: the horizontal-side branch is tried first and the vertical-side
/// branch only `else if` it did not fire, so a ball overlapping a paddle
/// corner gets a single-axis response.  This exclusivity is a retained quirk
/// of the game feel, not a defect.  No de-penetration is performed.
pub open spec fn spec_bounce_off_paddle(ball: Ball, paddle: Paddle, paddle_half_height: int) -> Ball {
    if spec_overlaps(ball, paddle, paddle_half_height) {
        if spec_x_bounce(ball, paddle) {
            Ball {
                position: ball.position,
                velocity: Vec2 {
                    x: spec_reverse_accelerate(ball.velocity.x as int) as i64,
                    y: ball.velocity.y,
                },
            }
        } else if spec_y_bounce(ball, paddle) {
            Ball {
                position: ball.position,
                velocity: Vec2 {
                    x: ball.velocity.x,
                    y: spec_reverse_accelerate(ball.velocity.y as int) as i64,
                },
            }
        } else {
            ball
        }
    } else {
        ball
    }
}

/// Response of the ball to both paddles in one tick, left paddle first.
pub open spec fn spec_check_collisions(
    ball: Ball,
    left: Paddle,
    right: Paddle,
    paddle_half_height: int,
) -> Ball {
    spec_bounce_off_paddle(spec_bounce_off_paddle(ball, left, paddle_half_height), right, paddle_half_height)
}

/// Resolves the ball's contact with one paddle.
fn bounce_off_paddle(ball: &mut Ball, paddle: &Paddle, bounds: &ArenaBounds)
    requires
        bounds.wf(),
        -2 * COORD_LIMIT <= old(ball).position.x <= 2 * COORD_LIMIT,
        -2 * COORD_LIMIT <= old(ball).position.y <= 2 * COORD_LIMIT,
        -2 * COORD_LIMIT - 1 <= old(ball).velocity.x <= 2 * COORD_LIMIT + 1,
        -2 * COORD_LIMIT - 1 <= old(ball).velocity.y <= 2 * COORD_LIMIT + 1,
        paddle.wf(*bounds),
    ensures
        *final(ball) == spec_bounce_off_paddle(
            *old(ball),
            *paddle,
            bounds.paddle_half_height as int,
        ),
        final(ball).position == old(ball).position,
        -2 * COORD_LIMIT - 2 <= final(ball).velocity.x <= 2 * COORD_LIMIT + 2,
        -2 * COORD_LIMIT - 2 <= final(ball).velocity.y <= 2 * COORD_LIMIT + 2,
        old(ball).moving() ==> final(ball).moving(),
{
    let overlaps = ball.position.x + BALL_RADIUS >= paddle.position.x - PADDLE_HALF_WIDTH
        && ball.position.y - BALL_RADIUS <= paddle.position.y + bounds.paddle_half_height
        && ball.position.y + BALL_RADIUS >= paddle.position.y - bounds.paddle_half_height
        && ball.position.x - BALL_RADIUS <= paddle.position.x + PADDLE_HALF_WIDTH;
    if overlaps {
        if ball.velocity.x > 0 && ball.position.x < paddle.position.x
            || ball.velocity.x < 0 && ball.position.x > paddle.position.x
        {
            ball.velocity.x = -ball.velocity.x;
            if ball.velocity.x < 0 {
                ball.velocity.x = ball.velocity.x - BALL_ACCEL;
            } else {
                ball.velocity.x = ball.velocity.x + BALL_ACCEL;
            }
        } else if ball.velocity.y < 0 && ball.position.y > paddle.position.y
            || ball.velocity.y > 0 && ball.position.y < paddle.position.y
        {
            ball.velocity.y = -ball.velocity.y;
            if ball.velocity.y < 0 {
                ball.velocity.y = ball.velocity.y - BALL_ACCEL;
            } else {
                ball.velocity.y = ball.velocity.y + BALL_ACCEL;
            }
        }
    }
}

/// Resolves the ball's contact with both paddles, left paddle first, and
/// mutates only the ball's velocity.
pub fn check_collisions(ball: &mut Ball, left: &Paddle, right: &Paddle, bounds: &ArenaBounds)
    requires
        bounds.wf(),
        -2 * COORD_LIMIT <= old(ball).position.x <= 2 * COORD_LIMIT,
        -2 * COORD_LIMIT <= old(ball).position.y <= 2 * COORD_LIMIT,
        -2 * COORD_LIMIT <= old(ball).velocity.x <= 2 * COORD_LIMIT,
        -2 * COORD_LIMIT <= old(ball).velocity.y <= 2 * COORD_LIMIT,
        left.wf(*bounds),
        right.wf(*bounds),
    ensures
        *final(ball) == spec_check_collisions(
            *old(ball),
            *left,
            *right,
            bounds.paddle_half_height as int,
        ),
        final(ball).position == old(ball).position,
        -2 * COORD_LIMIT - 2 <= final(ball).velocity.x <= 2 * COORD_LIMIT + 2,
        -2 * COORD_LIMIT - 2 <= final(ball).velocity.y <= 2 * COORD_LIMIT + 2,
        old(ball).moving() ==> final(ball).moving(),
{
    bounce_off_paddle(ball, left, bounds);
    bounce_off_paddle(ball, right, bounds);
}

/// Law: a paddle bounce strictly accelerates.  Whenever a bounce branch
/// fires, the post-bounce speed along the bounced axis exceeds the
/// pre-bounce speed by exactly `BALL_ACCEL`, the new sign points away from
/// the paddle's center, and the other axis is untouched; without overlap the
/// ball is unchanged.
pub proof fn lemma_paddle_bounce_accelerates(ball: Ball, paddle: Paddle, paddle_half_height: int)
    requires
        -2 * COORD_LIMIT - 2 <= ball.velocity.x <= 2 * COORD_LIMIT + 2,
        -2 * COORD_LIMIT - 2 <= ball.velocity.y <= 2 * COORD_LIMIT + 2,
    ensures
        spec_overlaps(ball, paddle, paddle_half_height) && spec_x_bounce(ball, paddle) ==> {
            let bounced = spec_bounce_off_paddle(ball, paddle, paddle_half_height);
            &&& abs(bounced.velocity.x as int) == abs(ball.velocity.x as int) + BALL_ACCEL
            &&& bounced.velocity.y == ball.velocity.y
            &&& (ball.position.x < paddle.position.x ==> bounced.velocity.x < 0)
            &&& (ball.position.x > paddle.position.x ==> bounced.velocity.x > 0)
        },
        spec_overlaps(ball, paddle, paddle_half_height) && !spec_x_bounce(ball, paddle)
            && spec_y_bounce(ball, paddle) ==> {
            let bounced = spec_bounce_off_paddle(ball, paddle, paddle_half_height);
            &&& abs(bounced.velocity.y as int) == abs(ball.velocity.y as int) + BALL_ACCEL
            &&& bounced.velocity.x == ball.velocity.x
            &&& (ball.position.y > paddle.position.y ==> bounced.velocity.y > 0)
            &&& (ball.position.y < paddle.position.y ==> bounced.velocity.y < 0)
        },
        !spec_overlaps(ball, paddle, paddle_half_height) ==> spec_bounce_off_paddle(
            ball,
            paddle,
            paddle_half_height,
        ) == ball,
{
}

} // verus!
