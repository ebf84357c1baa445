//! Integer plane vectors and the static arena geometry derived once from the
//! window dimensions.

use vstd::prelude::*;
use crate::config::{DIM_LIMIT, PADDLE_X_OFFSET};

verus! {

/// A pair of integer pixel coordinates, used for positions and velocities.
#[derive(Clone, Copy, Debug, PartialEq, Eq, Structural)]
pub struct Vec2 {
    pub x: i64,
    pub y: i64,
}

/// Static geometry derived once from window dimensions `W x H` and immutable
/// for the lifetime of a match.
#[derive(Clone, Copy, Debug, PartialEq, Eq, Structural)]
pub struct ArenaBounds {
    /// `W / 2`; the arena spans `-half_width ..= half_width` horizontally.
    pub half_width: i64,
    /// `H / 2`; the arena spans `-half_height ..= half_height` vertically.
    pub half_height: i64,
    /// `H / 8`: half the height of a paddle's box.
    pub paddle_half_height: i64,
    /// Spawn column of the left paddle, `-W/2 + 70`.
    pub player_left_x: i64,
    /// Spawn column of the right paddle, `W/2 - 70`.
    pub player_right_x: i64,
}

impl ArenaBounds {
    /// Well-formedness: nonnegative dimensions small enough for tick
    /// arithmetic, a paddle no taller than the arena, and the paddle columns
    /// at their fixed offsets from the side walls.
    pub open spec fn wf(self) -> bool {
        &&& 0 <= self.half_width <= DIM_LIMIT
        &&& 0 <= self.half_height <= DIM_LIMIT
        &&& 0 <= self.paddle_half_height <= self.half_height
        &&& self.player_left_x == -self.half_width + PADDLE_X_OFFSET
        &&& self.player_right_x == self.half_width - PADDLE_X_OFFSET
    }

    /// Lowest center height a paddle may take.
    pub open spec fn paddle_min_y(self) -> int {
        -self.half_height + self.paddle_half_height
    }

    /// Highest center height a paddle may take.
    pub open spec fn paddle_max_y(self) -> int {
        self.half_height - self.paddle_half_height
    }

    /// The geometry derived from window dimensions `width x height`:
    /// halved extents, a paddle of an eighth of the height, and the two
    /// paddle columns at their fixed offsets from the side walls.
    pub open spec fn spec_from_window(width: int, height: int) -> ArenaBounds {
        ArenaBounds {
            half_width: (width / 2) as i64,
            half_height: (height / 2) as i64,
            paddle_half_height: (height / 8) as i64,
            player_left_x: (-(width / 2) + PADDLE_X_OFFSET) as i64,
            player_right_x: (width / 2 - PADDLE_X_OFFSET) as i64,
        }
    }

    /// Derives the arena geometry from the window dimensions.  Requires a
    /// window with positive area; `initialize_match` turns a violation into
    /// an error instead.
    pub fn from_window(width: i32, height: i32) -> (b: ArenaBounds)
        requires
            width > 0,
            height > 0,
        ensures
            b == ArenaBounds::spec_from_window(width as int, height as int),
            b.wf(),
            b.half_width == width as int / 2,
            b.half_height == height as int / 2,
            b.paddle_half_height == height as int / 8,
            b.player_left_x == -(width as int / 2) + PADDLE_X_OFFSET,
            b.player_right_x == width as int / 2 - PADDLE_X_OFFSET,
    {
        let w = width as i64;
        let h = height as i64;
        let half_width = w / 2;
        let half_height = h / 2;
        let paddle_half_height = h / 8;
        proof {
            vstd::arithmetic::div_mod::lemma_div_pos_is_pos(h as int, 8);
            vstd::arithmetic::div_mod::lemma_div_is_ordered_by_denominator(h as int, 2, 8);
        }
        ArenaBounds {
            half_width,
            half_height,
            paddle_half_height,
            player_left_x: -half_width + PADDLE_X_OFFSET,
            player_right_x: half_width - PADDLE_X_OFFSET,
        }
    }
}

} // verus!
