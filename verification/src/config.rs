//! Fixed tuning constants of the simulation.  All lengths and speeds are in
//! pixels (per tick, for speeds).

use vstd::prelude::*;

verus! {

/// Pixels a paddle moves per tick of held input.
pub const PADDLE_SPEED: i64 = 10;

/// Half the width of a paddle's box.
pub const PADDLE_HALF_WIDTH: i64 = 25;

/// Horizontal distance of each paddle's center from its side of the arena.
pub const PADDLE_X_OFFSET: i64 = 70;

/// Radius of the ball's square bounding box.
pub const BALL_RADIUS: i64 = 15;

/// Speed given to the ball when a round starts.
pub const BALL_SPAWN_SPEED: i64 = 7;

/// Fixed speed increment applied along the bounced axis on each paddle bounce.
pub const BALL_ACCEL: i64 = 1;

/// Bound on the magnitude of each sample drawn for the ball's start direction.
pub const DIRECTION_SCALE: i64 = 1000;

/// Magnitude bound (2^60) on ball coordinates and velocities under which one
/// tick of integer arithmetic cannot overflow an `i64`.
pub const COORD_LIMIT: i64 = 0x1000_0000_0000_0000;

/// Magnitude bound (2^30) on arena half-dimensions; forced by taking window
/// dimensions as `i32`.
pub const DIM_LIMIT: i64 = 0x4000_0000;

} // verus!
