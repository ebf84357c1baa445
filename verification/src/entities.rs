//! The mutable simulation data: ball, paddles and scoreboard.

use vstd::prelude::*;
use crate::config::COORD_LIMIT;
use crate::geometry::{ArenaBounds, Vec2};

verus! {

/// Which side of the arena a paddle defends, and which player a point is
/// credited to.
#[derive(Clone, Copy, Debug, PartialEq, Eq, Structural)]
pub enum Side {
    Left,
    Right,
}

/// The ball: a square bounding box of half-width `BALL_RADIUS` centered on
/// `position`, translated by `velocity` once per tick.
#[derive(Clone, Copy, Debug, PartialEq, Eq, Structural)]
pub struct Ball {
    pub position: Vec2,
    pub velocity: Vec2,
}

impl Ball {
    /// Coordinates and velocities small enough that one tick of motion and
    /// one bounce acceleration stay within `i64`.
    pub open spec fn in_range(self) -> bool {
        &&& -COORD_LIMIT <= self.position.x <= COORD_LIMIT
        &&& -COORD_LIMIT <= self.position.y <= COORD_LIMIT
        &&& -COORD_LIMIT <= self.velocity.x <= COORD_LIMIT
        &&& -COORD_LIMIT <= self.velocity.y <= COORD_LIMIT
    }

    /// The ball's velocity is never the zero vector after initialization.
    pub open spec fn moving(self) -> bool {
        !(self.velocity.x == 0 && self.velocity.y == 0)
    }
}

/// A paddle: a box of half-width `PADDLE_HALF_WIDTH` and half-height
/// `bounds.paddle_half_height` centered on `position`.  Only `position.y`
/// varies after spawn.
#[derive(Clone, Copy, Debug, PartialEq, Eq, Structural)]
pub struct Paddle {
    pub position: Vec2,
    pub side: Side,
}

impl Paddle {
    /// The paddle sits on its side's fixed column with its center clamped
    /// inside the arena.
    pub open spec fn wf(self, bounds: ArenaBounds) -> bool {
        &&& self.position.x == match self.side {
                Side::Left => bounds.player_left_x as int,
                Side::Right => bounds.player_right_x as int,
            }
        &&& bounds.paddle_min_y() <= self.position.y <= bounds.paddle_max_y()
    }
}

/// Points scored so far; monotonically non-decreasing, reset only by an
/// explicit new match.
#[derive(Clone, Copy, Debug, PartialEq, Eq, Structural)]
pub struct Scoreboard {
    pub left_score: u64,
    pub right_score: u64,
}

impl Scoreboard {
    /// Both counters have room for one more point.
    pub open spec fn can_score(self) -> bool {
        &&& self.left_score < u64::MAX
        &&& self.right_score < u64::MAX
    }
}

} // verus!
