//! Ball start-direction generator: two uniform samples form a direction
//! vector that is normalized (by integer square root) to the spawn speed.
//!
//! Degenerate case: if both samples are exactly zero the direction is
//! undefined by normalization, so the generator falls back to the fixed
//! direction `(BALL_SPAWN_SPEED, 0)` instead of producing an invalid
//! velocity.

use vstd::prelude::*;
use vstd::arithmetic::div_mod::{
    lemma_div_by_multiple, lemma_div_is_ordered, lemma_div_non_zero, lemma_div_pos_is_pos,
};
use vstd::math::abs;
use crate::config::{BALL_SPAWN_SPEED, DIRECTION_SCALE};
use crate::geometry::Vec2;
use rand::Rng;

verus! {

/// A start-direction sample lies in `-DIRECTION_SCALE ..= DIRECTION_SCALE`.
pub open spec fn valid_sample(s: int) -> bool {
    -DIRECTION_SCALE <= s <= DIRECTION_SCALE
}

/// Relies on `rand::thread_rng` and `rand::Rng::gen_range` over an inclusive
/// integer range: the sample lies within the bounds.  `gen_range` panics on
/// an empty range, so one is excluded here.
#[verifier::external_body]
pub(crate) fn sample_in_range(lo: i64, hi: i64) -> (r: i64)
    requires
        lo <= hi,
    ensures
        lo <= r <= hi,
{
    rand::thread_rng().gen_range(lo..=hi)
}

/// The integer square root, rounded down.
pub open spec fn isqrt_spec(n: nat) -> nat
    decreases n,
{
    if n == 0 {
        0
    } else {
        let r = isqrt_spec((n - 1) as nat);
        if (r + 1) * (r + 1) <= n {
            r + 1
        } else {
            r
        }
    }
}

/// `isqrt_spec(n)` is the greatest integer whose square is at most `n`.
pub proof fn lemma_isqrt_spec_bounds(n: nat)
    ensures
        isqrt_spec(n) * isqrt_spec(n) <= n,
        n < (isqrt_spec(n) + 1) * (isqrt_spec(n) + 1),
    decreases n,
{
    if n > 0 {
        lemma_isqrt_spec_bounds((n - 1) as nat);
        let r = isqrt_spec((n - 1) as nat);
        if (r + 1) * (r + 1) <= n {
            // the square root grew, so n is exactly the next square
            assert(n == (r + 1) * (r + 1));
            assert((r + 1) * (r + 1) < (r + 2) * (r + 2)) by (nonlinear_arith);
        }
    } else {
        assert(isqrt_spec(n) * isqrt_spec(n) <= n && n < (isqrt_spec(n) + 1) * (isqrt_spec(n)
            + 1)) by (nonlinear_arith)
            requires
                n == 0nat,
                isqrt_spec(n) == 0nat,
        ;
    }
}

/// Any `m` with `m * m <= n` is at most the integer square root of `n`.
pub proof fn lemma_isqrt_at_least(n: nat, m: nat)
    requires
        m * m <= n,
    ensures
        isqrt_spec(n) >= m,
{
    lemma_isqrt_spec_bounds(n);
    if isqrt_spec(n) < m {
        assert((isqrt_spec(n) + 1) * (isqrt_spec(n) + 1) <= m * m) by (nonlinear_arith)
            requires
                isqrt_spec(n) + 1 <= m,
        ;
    }
}

/// Any `m` with `n < (m + 1) * (m + 1)` is at least the integer square root
/// of `n`.
pub proof fn lemma_isqrt_at_most(n: nat, m: nat)
    requires
        n < (m + 1) * (m + 1),
    ensures
        isqrt_spec(n) <= m,
{
    lemma_isqrt_spec_bounds(n);
    if isqrt_spec(n) > m {
        assert((m + 1) * (m + 1) <= isqrt_spec(n) * isqrt_spec(n)) by (nonlinear_arith)
            requires
                m + 1 <= isqrt_spec(n),
        ;
    }
}

/// Computes the integer square root by counting up while maintaining the
/// next square incrementally.
fn isqrt(n: u64) -> (r: u64)
    requires
        n <= 8_000_000,
    ensures
        r == isqrt_spec(n as nat),
        r * r <= n < (r + 1) * (r + 1),
{
    let mut r: u64 = 0;
    let mut sq: u64 = 1;
    while sq <= n
        invariant
            n <= 8_000_000,
            r <= 2829,
            sq == (r + 1) * (r + 1),
            r * r <= n,
        decreases n - r,
    {
        proof {
            assert(r + 1 <= 2828) by (nonlinear_arith)
                requires
                    (r + 1) * (r + 1) <= 8_000_000nat,
            ;
            assert(r + 1 <= (r + 1) * (r + 1)) by (nonlinear_arith);
            assert((r + 2) * (r + 2) == (r + 1) * (r + 1) + 2 * (r + 1) + 1) by (nonlinear_arith);
        }
        r = r + 1;
        sq = sq + 2 * r + 1;
    }
    proof {
        lemma_isqrt_at_least(n as nat, r as nat);
        lemma_isqrt_at_most(n as nat, r as nat);
        lemma_isqrt_spec_bounds(n as nat);
    }
    r
}

/// The start velocity formed from two direction samples: the vector
/// `(sx, sy)` scaled to length `BALL_SPAWN_SPEED` by integer division
/// through its rounded-down magnitude, or the fixed fallback
/// `(BALL_SPAWN_SPEED, 0)` when both samples are zero.
pub open spec fn spec_start_velocity(sx: int, sy: int) -> Vec2 {
    if sx == 0 && sy == 0 {
        Vec2 { x: BALL_SPAWN_SPEED, y: 0 }
    } else {
        let m = isqrt_spec((sx * sx + sy * sy) as nat) as int;
        let qx = abs(sx) * (BALL_SPAWN_SPEED as int) / m;
        let qy = abs(sy) * (BALL_SPAWN_SPEED as int) / m;
        Vec2 {
            x: (if sx < 0 {
                -qx
            } else {
                qx
            }) as i64,
            y: (if sy < 0 {
                -qy
            } else {
                qy
            }) as i64,
        }
    }
}

/// Builds the ball's start velocity from two direction samples.
///
/// The result is never the zero vector, and each component is bounded by
/// the spawn speed.
pub fn ball_start_velocity(sx: i64, sy: i64) -> (v: Vec2)
    requires
        valid_sample(sx as int),
        valid_sample(sy as int),
    ensures
        v == spec_start_velocity(sx as int, sy as int),
        v.x != 0 || v.y != 0,
        -BALL_SPAWN_SPEED <= v.x <= BALL_SPAWN_SPEED,
        -BALL_SPAWN_SPEED <= v.y <= BALL_SPAWN_SPEED,
{
    if sx == 0 && sy == 0 {
        return Vec2 { x: BALL_SPAWN_SPEED, y: 0 };
    }
    let ax = if sx < 0 {
        -sx
    } else {
        sx
    };
    let ay = if sy < 0 {
        -sy
    } else {
        sy
    };
    proof {
        assert(0 <= ax * ax <= 1_000_000 && 0 <= ay * ay <= 1_000_000) by (nonlinear_arith)
            requires
                0 <= ax <= 1000 && 0 <= ay <= 1000,
        ;
        assert(ax * ax >= ax && ay * ay >= ay) by (nonlinear_arith)
            requires
                0 <= ax && 0 <= ay,
        ;
    }
    let nsq: u64 = (ax * ax + ay * ay) as u64;
    let m: u64 = isqrt(nsq);
    proof {
        lemma_isqrt_at_least(nsq as nat, 1);
        assert((ax * ax) as nat == (ax as nat) * (ax as nat)) by (nonlinear_arith)
            requires
                0 <= ax,
        ;
        assert((ay * ay) as nat == (ay as nat) * (ay as nat)) by (nonlinear_arith)
            requires
                0 <= ay,
        ;
        lemma_isqrt_at_least(nsq as nat, ax as nat);
        lemma_isqrt_at_least(nsq as nat, ay as nat);
        assert((1414nat + 1) * (1414nat + 1) == 2_002_225nat) by (nonlinear_arith);
        lemma_isqrt_at_most(nsq as nat, 1414);
    }
    let qx: u64 = (ax as u64) * (BALL_SPAWN_SPEED as u64) / m;
    let qy: u64 = (ay as u64) * (BALL_SPAWN_SPEED as u64) / m;
    proof {
        // Each component is at most the spawn speed: the sample's magnitude
        // is at most the vector's magnitude.
        lemma_div_is_ordered(7 * (ax as int), 7 * (m as int), m as int);
        lemma_div_by_multiple(7, m as int);
        lemma_div_is_ordered(7 * (ay as int), 7 * (m as int), m as int);
        // The larger component keeps a nonzero quotient: the rounded-down
        // magnitude is at most twice the larger sample.
        if ax >= ay {
            assert(m <= 2 * ax) by (nonlinear_arith)
                requires
                    (m as int) * (m as int) <= (ax as int) * (ax as int) + (ay as int) * (ay
                        as int),
                    0 <= ay <= ax,
                    1 <= m,
            ;
            lemma_div_non_zero(7 * (ax as int), m as int);
        } else {
            assert(m <= 2 * ay) by (nonlinear_arith)
                requires
                    (m as int) * (m as int) <= (ax as int) * (ax as int) + (ay as int) * (ay
                        as int),
                    0 <= ax <= ay,
                    1 <= m,
            ;
            lemma_div_non_zero(7 * (ay as int), m as int);
        }
        // Tie the executable computation to the specification formula.
        lemma_div_pos_is_pos(7 * (ax as int), m as int);
        lemma_div_pos_is_pos(7 * (ay as int), m as int);
        assert(abs(sx as int) == ax as int);
        assert(abs(sy as int) == ay as int);
        assert((sx as int) * (sx as int) == (ax as int) * (ax as int)) by (nonlinear_arith)
            requires
                ax == sx || ax as int == -(sx as int),
        ;
        assert((sy as int) * (sy as int) == (ay as int) * (ay as int)) by (nonlinear_arith)
            requires
                ay == sy || ay as int == -(sy as int),
        ;
        assert(nsq as nat == ((sx as int) * (sx as int) + (sy as int) * (sy as int)) as nat);
        assert(qx as int == abs(sx as int) * (BALL_SPAWN_SPEED as int) / (m as int));
        assert(qy as int == abs(sy as int) * (BALL_SPAWN_SPEED as int) / (m as int));
    }
    let vx = if sx < 0 {
        -(qx as i64)
    } else {
        qx as i64
    };
    let vy = if sy < 0 {
        -(qy as i64)
    } else {
        qy as i64
    };
    Vec2 { x: vx, y: vy }
}

/// Draws the two direction samples and forms the start velocity.  The
/// samples are random, so the result is pinned only up to the sample pair:
/// it is always some sampled start velocity, hence nonzero and bounded by
/// the spawn speed.
pub fn generate_ball_start_direction() -> (v: Vec2)
    ensures
        exists|sx: int, sy: int|
            valid_sample(sx) && valid_sample(sy) && v == #[trigger] spec_start_velocity(sx, sy),
        v.x != 0 || v.y != 0,
        -BALL_SPAWN_SPEED <= v.x <= BALL_SPAWN_SPEED,
        -BALL_SPAWN_SPEED <= v.y <= BALL_SPAWN_SPEED,
{
    let sx = sample_in_range(-DIRECTION_SCALE, DIRECTION_SCALE);
    let sy = sample_in_range(-DIRECTION_SCALE, DIRECTION_SCALE);
    let v = ball_start_velocity(sx, sy);
    proof {
        assert(valid_sample(sx as int) && valid_sample(sy as int) && v == spec_start_velocity(
            sx as int,
            sy as int,
        ));
    }
    v
}

} // verus!
