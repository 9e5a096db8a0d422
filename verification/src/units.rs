//! Fixed-point units, the game's dimension constants, and the small
//! arithmetic helpers the simulation is built on.
//!
//! Every length in the library is an `i64` counting thousandths of a world
//! unit, and every time span is a `u64` counting milliseconds.  Velocity
//! directions are unit-vector coordinates, also in thousandths, so their
//! components lie in `[-MILLI, MILLI]`.

use vstd::prelude::*;

verus! {

/// Fixed-point scale: one world unit is `MILLI` thousandths.
pub const MILLI: i64 = 1000;

/// Horizontal inset of each paddle from its window edge, in thousandths.
pub const SPACING: i64 = 50_000;

/// Paddle sprite width, in thousandths.
pub const PADDLE_WIDTH: i64 = 30_000;

/// Paddle sprite height, in thousandths.
pub const PADDLE_HEIGHT: i64 = 120_000;

/// Ball sprite width and height, in thousandths.
pub const BALL_SIZE: i64 = 30_000;

/// Half the paddle height, in thousandths.
pub const PADDLE_HALF_HEIGHT: i64 = 60_000;

/// Half the ball size, in thousandths.
pub const BALL_HALF: i64 = 15_000;

/// Paddle speed, in world units per second (equivalently, thousandths per
/// millisecond).
pub const PADDLE_SPEED: i64 = 500;

/// Ball speed, in world units per second.
pub const BALL_SPEED: i64 = 250;

/// Length of the pause after a goal, in milliseconds.
pub const GOAL_PAUSE_MS: u64 = 1000;

/// The ball direction assigned after a goal on the left boundary: the unit
/// vector along (0.5, 0.2), in thousandths.  The right-boundary goal assigns
/// the opposite direction.
pub const RESET_DIR_X: i64 = 928;

/// See `RESET_DIR_X`.
pub const RESET_DIR_Y: i64 = 371;

/// Velocity direction components are unit-vector coordinates in thousandths,
/// so their magnitude never exceeds this.
pub const DIR_LIMIT: i64 = 1000;

/// Machine limit on coordinate magnitudes, far beyond any window: keeps all
/// position arithmetic inside `i64`.
pub const MAX_COORD: i64 = 1_000_000_000_000_000;

/// Machine limit on window dimensions, in thousandths.
pub const MAX_DIM: i64 = 1_000_000_000_000;

/// Machine limit on the length of a single tick: one day in milliseconds.
pub const MAX_TICK_MS: u64 = 86_400_000;

/// Division truncating toward zero, as machine integer division does; only
/// meaningful for a positive divisor.
pub open spec fn div_trunc(a: int, b: int) -> int {
    if a >= 0 {
        a / b
    } else {
        -((-a) / b)
    }
}

/// Displacement of the ball along one axis during a tick: direction
/// component `d` (thousandths of a unit vector) times `BALL_SPEED`, applied
/// for `dt` milliseconds, truncated to whole thousandths.
pub open spec fn ball_disp(d: int, dt: int) -> int {
    div_trunc(d * BALL_SPEED * dt, MILLI as int)
}

/// Halve a non-negative coordinate.
pub fn half_nonneg(v: i64) -> (r: i64)
    requires
        0 <= v,
    ensures
        r == v as int / 2,
{
    ((v as u64) / 2) as i64
}

/// Truncating division on machine integers, for a positive divisor.
pub fn div_trunc_i64(a: i64, b: i64) -> (r: i64)
    requires
        0 < b,
        i64::MIN < a,
    ensures
        r == div_trunc(a as int, b as int),
{
    if a >= 0 {
        let q: u64 = (a as u64) / (b as u64);
        q as i64
    } else {
        let m: u64 = (-a) as u64;
        let q: u64 = m / (b as u64);
        assert(q <= m);
        -(q as i64)
    }
}

/// The ball's displacement along one axis over a tick.
pub fn ball_axis_disp(d: i64, dt: u64) -> (r: i64)
    requires
        -DIR_LIMIT <= d <= DIR_LIMIT,
        dt <= MAX_TICK_MS,
    ensures
        r == ball_disp(d as int, dt as int),
        -MAX_DISP <= r <= MAX_DISP,
{
    let m: u64 = if d >= 0 {
        d as u64
    } else {
        (-d) as u64
    };
    assert(m * 250 * dt <= 1000 * 250 * (MAX_TICK_MS as int) && m * 250 * dt <= m * 250
        * dt) by (nonlinear_arith)
        requires
            m <= 1000,
            dt <= MAX_TICK_MS,
    ;
    let scaled: u64 = m * 250 * dt / 1000;
    assert(scaled <= m * 250 * dt);
    if d >= 0 {
        scaled as i64
    } else {
        proof {
            assert((-(d as int)) * BALL_SPEED * (dt as int) == -(d * BALL_SPEED
                * dt)) by (nonlinear_arith);
        }
        -(scaled as i64)
    }
}

/// Largest possible single-axis ball displacement in one tick, given the
/// direction and tick-length limits.
pub const MAX_DISP: i64 = 21_600_000_000;

} // verus!
