//! Paddle controller: converts held directional input into clamped vertical
//! paddle movement.

use vstd::prelude::*;
use crate::config::PADDLE_SPEED;
use crate::entities::Paddle;
use crate::geometry::ArenaBounds;

verus! {

/// A direction of sustained paddle input.
#[derive(Clone, Copy, Debug, PartialEq, Eq, Structural)]
pub enum MoveDirection {
    Up,
    Down,
}

/// `y` clamped into `lo ..= hi`.
pub open spec fn spec_clamp(y: int, lo: int, hi: int) -> int {
    if y < lo {
        lo
    } else if y > hi {
        hi
    } else {
        y
    }
}

/// One movement step: translate by `PADDLE_SPEED` in the given direction,
/// then clamp the center into the arena.
pub open spec fn spec_move_and_cap(y: int, direction: MoveDirection, bounds: ArenaBounds) -> int {
    let moved = match direction {
        MoveDirection::Up => y + PADDLE_SPEED,
        MoveDirection::Down => y - PADDLE_SPEED,
    };
    spec_clamp(moved, bounds.paddle_min_y(), bounds.paddle_max_y())
}

/// A full tick of paddle input: the up and down keys apply their increments
/// independently, each followed by its own clamp, up first.  Holding both
/// nets to partial cancellation only through the two sequential steps.
pub open spec fn spec_paddle_step(y: int, up: bool, down: bool, bounds: ArenaBounds) -> int {
    let after_up = if up {
        spec_move_and_cap(y, MoveDirection::Up, bounds)
    } else {
        y
    };
    if down {
        spec_move_and_cap(after_up, MoveDirection::Down, bounds)
    } else {
        after_up
    }
}

/// Moves the paddle one step in `direction` and clamps it to the arena.
///
/// After clamping, `-half_height + paddle_half_height <= position.y
/// <= half_height - paddle_half_height` always holds.
pub fn move_and_cap_paddle(paddle: &mut Paddle, bounds: &ArenaBounds, direction: MoveDirection)
    requires
        bounds.wf(),
        old(paddle).wf(*bounds),
    ensures
        final(paddle).wf(*bounds),
        final(paddle).position.y == spec_move_and_cap(
            old(paddle).position.y as int,
            direction,
            *bounds,
        ),
        final(paddle).position.x == old(paddle).position.x,
        final(paddle).side == old(paddle).side,
        bounds.paddle_min_y() <= final(paddle).position.y <= bounds.paddle_max_y(),
{
    match direction {
        MoveDirection::Up => {
            paddle.position.y = paddle.position.y + PADDLE_SPEED;
        },
        MoveDirection::Down => {
            paddle.position.y = paddle.position.y - PADDLE_SPEED;
        },
    }
    let lo = -bounds.half_height + bounds.paddle_half_height;
    let hi = bounds.half_height - bounds.paddle_half_height;
    if paddle.position.y < lo {
        paddle.position.y = lo;
    } else if paddle.position.y > hi {
        paddle.position.y = hi;
    }
}

/// Applies one tick of a player's input to their paddle: an independent
/// clamped step per held key, up before down.
pub fn apply_paddle_input(paddle: &mut Paddle, bounds: &ArenaBounds, up: bool, down: bool)
    requires
        bounds.wf(),
        old(paddle).wf(*bounds),
    ensures
        final(paddle).wf(*bounds),
        final(paddle).position.y == spec_paddle_step(
            old(paddle).position.y as int,
            up,
            down,
            *bounds,
        ),
        final(paddle).position.x == old(paddle).position.x,
        final(paddle).side == old(paddle).side,
{
    if up {
        move_and_cap_paddle(paddle, bounds, MoveDirection::Up);
    }
    if down {
        move_and_cap_paddle(paddle, bounds, MoveDirection::Down);
    }
}

/// Law: after clamping, a paddle's center lies between
/// `-half_height + paddle_half_height` and `half_height -
/// paddle_half_height`, whatever position it started from and whichever
/// direction it moved.
pub proof fn lemma_paddle_clamped_in_arena(y: int, direction: MoveDirection, bounds: ArenaBounds)
    requires
        bounds.wf(),
    ensures
        bounds.paddle_min_y() <= spec_move_and_cap(y, direction, bounds) <= bounds.paddle_max_y(),
{
}

} // verus!
