//! Scoring: detects the ball exiting the left or right bound and credits the
//! opposite player.

use vstd::prelude::*;
use crate::config::{BALL_RADIUS, COORD_LIMIT};
use crate::entities::{Ball, Scoreboard, Side};
use crate::geometry::ArenaBounds;

verus! {

/// Which player, if any, is credited a point for the ball's position:
/// exiting past `-half_width` credits the right player, exiting past
/// `+half_width` credits the left player.  The left bound is tested first;
/// the ball cannot be past both at once when the arena is wider than the
/// ball, but the order fixes the tie-break regardless.
pub open spec fn spec_exit_side(ball: Ball, half_width: int) -> Option<Side> {
    if ball.position.x - BALL_RADIUS < -half_width {
        Some(Side::Right)
    } else if ball.position.x + BALL_RADIUS > half_width {
        Some(Side::Left)
    } else {
        None
    }
}

/// Tests whether the ball has exited the arena horizontally and returns the
/// side credited with the point.
pub fn check_exit(ball: &Ball, bounds: &ArenaBounds) -> (scored: Option<Side>)
    requires
        bounds.wf(),
        -2 * COORD_LIMIT <= ball.position.x <= 2 * COORD_LIMIT,
    ensures
        scored == spec_exit_side(*ball, bounds.half_width as int),
        scored is Some <==> (ball.position.x - BALL_RADIUS < -bounds.half_width
            || ball.position.x + BALL_RADIUS > bounds.half_width),
{
    if ball.position.x - BALL_RADIUS < -bounds.half_width {
        Some(Side::Right)
    } else if ball.position.x + BALL_RADIUS > bounds.half_width {
        Some(Side::Left)
    } else {
        None
    }
}

/// The scoreboard after crediting `side` with one point.
pub open spec fn spec_award_point(scoreboard: Scoreboard, side: Side) -> Scoreboard {
    match side {
        Side::Left => Scoreboard {
            left_score: (scoreboard.left_score + 1) as u64,
            right_score: scoreboard.right_score,
        },
        Side::Right => Scoreboard {
            left_score: scoreboard.left_score,
            right_score: (scoreboard.right_score + 1) as u64,
        },
    }
}

/// Credits `side` with one point.  Scores only ever grow.
pub fn award_point(scoreboard: &mut Scoreboard, side: Side)
    requires
        old(scoreboard).can_score(),
    ensures
        *final(scoreboard) == spec_award_point(*old(scoreboard), side),
        final(scoreboard).left_score >= old(scoreboard).left_score,
        final(scoreboard).right_score >= old(scoreboard).right_score,
{
    match side {
        Side::Left => {
            scoreboard.left_score = scoreboard.left_score + 1;
        },
        Side::Right => {
            scoreboard.right_score = scoreboard.right_score + 1;
        },
    }
}

} // verus!
