//! The court: paddles, the ball, per-tick control and motion, collision
//! response, goal detection and scoring.
//!
//! Positions are box centers in thousandths of a world unit.  A velocity is
//! a unit direction in thousandths; bounces only reverse the sign of one
//! component, so the direction keeps its length, and the serve after a goal
//! re-assigns it whole.

use vstd::prelude::*;
use crate::collide::Collision;
use crate::collide::Vec2;
use crate::collide::collide;
use crate::collide::spec_collide;
use crate::prestart::PauseFor;
use crate::scoreboard::Scoreboard;
use crate::scoreboard::score_inc;
use crate::units::BALL_HALF;
use crate::units::BALL_SIZE;
use crate::units::DIR_LIMIT;
use crate::units::GOAL_PAUSE_MS;
use crate::units::MAX_COORD;
use crate::units::MAX_DIM;
use crate::units::MAX_DISP;
use crate::units::MAX_TICK_MS;
use crate::units::PADDLE_HALF_HEIGHT;
use crate::units::PADDLE_HEIGHT;
use crate::units::PADDLE_SPEED;
use crate::units::PADDLE_WIDTH;
use crate::units::RESET_DIR_X;
use crate::units::RESET_DIR_Y;
use crate::units::SPACING;
use crate::units::ball_disp;
use crate::units::ball_axis_disp;
use crate::units::half_nonneg;
use vstd::arithmetic::div_mod::lemma_div_is_ordered;

verus! {

/// Which side of the court a paddle defends.
#[derive(Clone, Copy, Debug, PartialEq, Eq, Structural)]
pub enum Side {
    Left,
    Right,
}

/// The window, in thousandths of a world unit, centered on the origin.
#[derive(Clone, Copy, Debug, PartialEq, Eq, Structural)]
pub struct Window {
    pub width: i64,
    pub height: i64,
}

impl Window {
    /// Machine limits on the window dimensions.
    pub open spec fn wf(self) -> bool {
        &&& 0 <= self.width <= MAX_DIM
        &&& 0 <= self.height <= MAX_DIM
    }
}

/// A paddle: the side it defends and its center position.  Its sprite size
/// is fixed at `PADDLE_WIDTH` by `PADDLE_HEIGHT`.
#[derive(Clone, Copy, Debug, PartialEq, Eq, Structural)]
pub struct Paddle {
    pub side: Side,
    pub pos: Vec2,
}

impl Paddle {
    /// Machine limit on the paddle's coordinates.
    pub open spec fn in_range(self) -> bool {
        &&& -MAX_COORD <= self.pos.x <= MAX_COORD
        &&& -MAX_COORD <= self.pos.y <= MAX_COORD
    }
}

/// A velocity direction: unit-vector coordinates in thousandths.
#[derive(Clone, Copy, Debug, PartialEq, Eq, Structural)]
pub struct Velocity(pub Vec2);

impl Velocity {
    /// Direction components never exceed a unit vector's scale.
    pub open spec fn wf(self) -> bool {
        &&& -DIR_LIMIT <= self.0.x <= DIR_LIMIT
        &&& -DIR_LIMIT <= self.0.y <= DIR_LIMIT
    }
}

/// The ball: center position and velocity direction.  Its sprite is a
/// square of side `BALL_SIZE`.
#[derive(Clone, Copy, Debug, PartialEq, Eq, Structural)]
pub struct Ball {
    pub pos: Vec2,
    pub vel: Velocity,
}

impl Ball {
    /// Machine limit on the ball's coordinates at a tick's start.
    pub open spec fn in_range(self) -> bool {
        &&& -MAX_COORD <= self.pos.x <= MAX_COORD
        &&& -MAX_COORD <= self.pos.y <= MAX_COORD
    }

    /// After moving, the ball may sit one tick's travel past the limit.
    pub open spec fn in_flight_range(self) -> bool {
        &&& -(MAX_COORD + MAX_DISP) <= self.pos.x <= MAX_COORD + MAX_DISP
        &&& -(MAX_COORD + MAX_DISP) <= self.pos.y <= MAX_COORD + MAX_DISP
    }
}

/// The ball sprite's size.
pub open spec fn spec_ball_size() -> Vec2 {
    Vec2 { x: BALL_SIZE, y: BALL_SIZE }
}

/// The paddle sprite's size.
pub open spec fn spec_paddle_size() -> Vec2 {
    Vec2 { x: PADDLE_WIDTH, y: PADDLE_HEIGHT }
}

/// The x-coordinate a paddle holds in a window of the given width: a fixed
/// inset from its own edge.
pub open spec fn spec_paddle_x(side: Side, width: int) -> int {
    match side {
        Side::Left => SPACING - width / 2,
        Side::Right => width / 2 - SPACING,
    }
}

/// Reposition a paddle horizontally for the current window size.
pub fn window_resize_system(paddle: &mut Paddle, window: &Window)
    requires
        window.wf(),
    ensures
        final(paddle).pos.x == spec_paddle_x(old(paddle).side, window.width as int),
        final(paddle).pos.y == old(paddle).pos.y,
        final(paddle).side == old(paddle).side,
{
    let half_w = half_nonneg(window.width);
    match paddle.side {
        Side::Left => {
            paddle.pos.x = SPACING - half_w;
        },
        Side::Right => {
            paddle.pos.x = half_w - SPACING;
        },
    }
}

/// A paddle's vertical position after one control tick: it moves at
/// `PADDLE_SPEED` up while the up key is held, down while the down key is,
/// else rests; then it is clamped inside the window.
pub open spec fn spec_paddle_y_step(y: int, up: bool, down: bool, height: int, dt: int) -> int {
    let dir: int = if up {
        PADDLE_SPEED as int
    } else if down {
        -(PADDLE_SPEED as int)
    } else {
        0
    };
    let moved = y + dir * dt;
    let hi = height / 2 - PADDLE_HALF_HEIGHT;
    let lo = -(height / 2) + PADDLE_HALF_HEIGHT;
    let capped = if moved > hi {
        hi
    } else {
        moved
    };
    if capped < lo {
        lo
    } else {
        capped
    }
}

/// Move one paddle under its keys for one tick, clamped to the window; in
/// any window at least as tall as the paddle, the paddle ends wholly inside.
pub fn control_system(paddle: &mut Paddle, up: bool, down: bool, window: &Window, dt: u64)
    requires
        old(paddle).in_range(),
        window.wf(),
        dt <= MAX_TICK_MS,
    ensures
        final(paddle).side == old(paddle).side,
        final(paddle).pos.x == old(paddle).pos.x,
        final(paddle).pos.y == spec_paddle_y_step(
            old(paddle).pos.y as int,
            up,
            down,
            window.height as int,
            dt as int,
        ),
        window.height >= PADDLE_HEIGHT ==> (-(window.height as int / 2) + PADDLE_HALF_HEIGHT
            <= final(paddle).pos.y <= window.height as int / 2 - PADDLE_HALF_HEIGHT),
        final(paddle).in_range(),
{
    let dir: i64 = if up {
        PADDLE_SPEED
    } else if down {
        -PADDLE_SPEED
    } else {
        0
    };
    proof {
        assert(-500 * (MAX_TICK_MS as int) <= dir * (dt as int) <= 500 * (
        MAX_TICK_MS as int)) by (nonlinear_arith)
            requires
                -500 <= dir <= 500,
                0 <= dt <= MAX_TICK_MS,
        ;
    }
    let moved: i64 = paddle.pos.y + dir * (dt as i64);
    let half_h = half_nonneg(window.height);
    let hi: i64 = half_h - PADDLE_HALF_HEIGHT;
    let lo: i64 = -half_h + PADDLE_HALF_HEIGHT;
    proof {
        if window.height >= PADDLE_HEIGHT {
            lemma_div_is_ordered(PADDLE_HEIGHT as int, window.height as int, 2);
        }
    }
    let capped: i64 = if moved > hi {
        hi
    } else {
        moved
    };
    paddle.pos.y = if capped < lo {
        lo
    } else {
        capped
    };
}

/// The ball after one tick of free flight: each coordinate advances by that
/// axis' displacement; the velocity stays.
pub open spec fn spec_ball_move(b: Ball, dt: int) -> Ball {
    Ball {
        pos: Vec2 {
            x: (b.pos.x + ball_disp(b.vel.0.x as int, dt)) as i64,
            y: (b.pos.y + ball_disp(b.vel.0.y as int, dt)) as i64,
        },
        vel: b.vel,
    }
}

/// Integrate the ball's position from its velocity for one tick.
pub fn ball_movement_system(ball: &mut Ball, dt: u64)
    requires
        old(ball).in_range(),
        old(ball).vel.wf(),
        dt <= MAX_TICK_MS,
    ensures
        *final(ball) == spec_ball_move(*old(ball), dt as int),
        final(ball).vel == old(ball).vel,
        final(ball).in_flight_range(),
{
    let dx = ball_axis_disp(ball.vel.0.x, dt);
    let dy = ball_axis_disp(ball.vel.0.y, dt);
    ball.pos.x = ball.pos.x + dx;
    ball.pos.y = ball.pos.y + dy;
}

/// The velocity with its horizontal component reversed.
pub open spec fn spec_flip_x(v: Velocity) -> Velocity {
    Velocity(Vec2 { x: (-v.0.x) as i64, y: v.0.y })
}

/// The velocity with its vertical component reversed.
pub open spec fn spec_flip_y(v: Velocity) -> Velocity {
    Velocity(Vec2 { x: v.0.x, y: (-v.0.y) as i64 })
}

/// The velocity after striking a paddle face: the left and right faces
/// reverse the horizontal component, the top and bottom faces the vertical
/// one; no contact, no change.
pub open spec fn spec_bounce(v: Velocity, hit: Option<Collision>) -> Velocity {
    match hit {
        Option::Some(Collision::Left) => spec_flip_x(v),
        Option::Some(Collision::Right) => spec_flip_x(v),
        Option::Some(Collision::Top) => spec_flip_y(v),
        Option::Some(Collision::Bottom) => spec_flip_y(v),
        Option::None => v,
    }
}

/// The serve direction after a goal at the given boundary: away from it,
/// with a slight vertical slant.
pub open spec fn spec_reset_velocity(boundary: Side) -> Velocity {
    match boundary {
        Side::Left => Velocity(Vec2 { x: RESET_DIR_X, y: RESET_DIR_Y }),
        Side::Right => Velocity(Vec2 { x: (-RESET_DIR_X) as i64, y: (-RESET_DIR_Y) as i64 }),
    }
}

/// The ball's box has passed the left window boundary.
pub open spec fn crossed_left(x: int, width: int) -> bool {
    x < -(width / 2) + BALL_HALF
}

/// The ball's box has passed the right window boundary.
pub open spec fn crossed_right(x: int, width: int) -> bool {
    x > width / 2 - BALL_HALF
}

/// The ball's box has passed the low window boundary.
pub open spec fn crossed_bottom(y: int, height: int) -> bool {
    y < -(height / 2) + BALL_HALF
}

/// The ball's box has passed the high window boundary.
pub open spec fn crossed_top(y: int, height: int) -> bool {
    y > height / 2 - BALL_HALF
}

/// Everything the collision pass may change.
#[derive(Clone, Copy, Debug, PartialEq, Eq, Structural)]
pub struct CollisionOutcome {
    pub ball: Ball,
    pub score: Scoreboard,
    pub pause: PauseFor,
}

/// The collision pass, in order: each paddle's contact reverses one
/// velocity component; then the four boundary checks run independently
/// against the ball's unmoved position.  A left-boundary goal scores for
/// the right player, re-centers the ball, starts the pause and assigns the
/// serve; the right boundary mirrors it; the low and high boundaries only
/// reverse the vertical velocity component.
pub open spec fn spec_ball_collision(
    ball: Ball,
    left: Paddle,
    right: Paddle,
    window: Window,
    score: Scoreboard,
    pause: PauseFor,
) -> CollisionOutcome {
    let v1 = spec_bounce(
        ball.vel,
        spec_collide(ball.pos, spec_ball_size(), left.pos, spec_paddle_size()),
    );
    let v2 = spec_bounce(
        v1,
        spec_collide(ball.pos, spec_ball_size(), right.pos, spec_paddle_size()),
    );
    let tx = ball.pos.x as int;
    let ty = ball.pos.y as int;
    let w = window.width as int;
    let h = window.height as int;
    let o1 = if crossed_left(tx, w) {
        CollisionOutcome {
            ball: Ball { pos: Vec2 { x: 0, y: 0 }, vel: spec_reset_velocity(Side::Left) },
            score: Scoreboard(score.0, score_inc(score.1)),
            pause: PauseFor(GOAL_PAUSE_MS),
        }
    } else {
        CollisionOutcome { ball: Ball { pos: ball.pos, vel: v2 }, score, pause }
    };
    let o2 = if crossed_right(tx, w) {
        CollisionOutcome {
            ball: Ball { pos: Vec2 { x: 0, y: 0 }, vel: spec_reset_velocity(Side::Right) },
            score: Scoreboard(score_inc(o1.score.0), o1.score.1),
            pause: PauseFor(GOAL_PAUSE_MS),
        }
    } else {
        o1
    };
    let o3 = if crossed_bottom(ty, h) {
        CollisionOutcome {
            ball: Ball { pos: o2.ball.pos, vel: spec_flip_y(o2.ball.vel) },
            ..o2
        }
    } else {
        o2
    };
    if crossed_top(ty, h) {
        CollisionOutcome {
            ball: Ball { pos: o3.ball.pos, vel: spec_flip_y(o3.ball.vel) },
            ..o3
        }
    } else {
        o3
    }
}

/// Reverse the velocity component named by a struck paddle face.
pub fn apply_bounce(vel: &mut Velocity, hit: Option<Collision>)
    requires
        old(vel).wf(),
    ensures
        *final(vel) == spec_bounce(*old(vel), hit),
        final(vel).wf(),
{
    match hit {
        Option::Some(Collision::Left) => {
            vel.0.x = -vel.0.x;
        },
        Option::Some(Collision::Right) => {
            vel.0.x = -vel.0.x;
        },
        Option::Some(Collision::Top) => {
            vel.0.y = -vel.0.y;
        },
        Option::Some(Collision::Bottom) => {
            vel.0.y = -vel.0.y;
        },
        Option::None => {
        },
    }
}

/// Return the ball to the center of the court and start the post-goal
/// pause.
pub fn reset_ball(pause: &mut PauseFor, ball: &mut Ball)
    ensures
        final(pause).0 == GOAL_PAUSE_MS,
        final(ball).pos == (Vec2 { x: 0i64, y: 0i64 }),
        final(ball).vel == old(ball).vel,
{
    pause.0 = GOAL_PAUSE_MS;
    ball.pos = Vec2 { x: 0, y: 0 };
}

/// Run the collision pass for one tick: paddle bounces, then the four
/// boundary checks, all against the ball's position at entry.
pub fn ball_collision_system(
    ball: &mut Ball,
    left: &Paddle,
    right: &Paddle,
    window: &Window,
    score: &mut Scoreboard,
    pause: &mut PauseFor,
)
    requires
        old(ball).in_flight_range(),
        old(ball).vel.wf(),
        left.in_range(),
        right.in_range(),
        window.wf(),
    ensures
        (CollisionOutcome { ball: *final(ball), score: *final(score), pause: *final(pause) })
            == spec_ball_collision(*old(ball), *left, *right, *window, *old(score), *old(pause)),
        final(ball).vel.wf(),
        final(ball).in_flight_range(),
{
    let tx = ball.pos.x;
    let ty = ball.pos.y;
    let ball_sz = Vec2 { x: BALL_SIZE, y: BALL_SIZE };
    let pad_sz = Vec2 { x: PADDLE_WIDTH, y: PADDLE_HEIGHT };
    let hit_left = collide(ball.pos, ball_sz, left.pos, pad_sz);
    apply_bounce(&mut ball.vel, hit_left);
    let hit_right = collide(ball.pos, ball_sz, right.pos, pad_sz);
    apply_bounce(&mut ball.vel, hit_right);
    let half_w = half_nonneg(window.width);
    let half_h = half_nonneg(window.height);
    if tx < -half_w + BALL_HALF {
        // A goal at the left boundary: the right player scores.  The flip
        // is immediately overridden by the serve assignment below.
        ball.vel.0.x = -ball.vel.0.x;
        score.1 = if score.1 == 255 {
            0
        } else {
            score.1 + 1
        };
        reset_ball(pause, ball);
        ball.vel = Velocity(Vec2 { x: RESET_DIR_X, y: RESET_DIR_Y });
    }
    if tx > half_w - BALL_HALF {
        // A goal at the right boundary: the left player scores.
        ball.vel.0.x = -ball.vel.0.x;
        score.0 = if score.0 == 255 {
            0
        } else {
            score.0 + 1
        };
        reset_ball(pause, ball);
        ball.vel = Velocity(Vec2 { x: -RESET_DIR_X, y: -RESET_DIR_Y });
    }
    if ty < -half_h + BALL_HALF {
        ball.vel.0.y = -ball.vel.0.y;
    }
    if ty > half_h - BALL_HALF {
        ball.vel.0.y = -ball.vel.0.y;
    }
}

/// A velocity's squared speed, in squared thousandths.
pub open spec fn speed_sq(v: Velocity) -> int {
    v.0.x * v.0.x + v.0.y * v.0.y
}

/// A wall bounce reverses exactly the vertical velocity component, leaves
/// the horizontal one, and preserves the speed.
pub proof fn lemma_wall_bounce_flips_only_y(v: Velocity)
    requires
        v.wf(),
    ensures
        spec_flip_y(v).0.x == v.0.x,
        spec_flip_y(v).0.y == -v.0.y,
        speed_sq(spec_flip_y(v)) == speed_sq(v),
{
    assert((-(v.0.y as int)) * (-(v.0.y as int)) == v.0.y * v.0.y) by (nonlinear_arith);
}

/// A paddle bounce reverses exactly the velocity component named by the
/// struck face — horizontal for the left and right faces, vertical for the
/// top and bottom faces, nothing without contact — and preserves the speed.
pub proof fn lemma_paddle_bounce_flips_one_axis(v: Velocity, hit: Option<Collision>)
    requires
        v.wf(),
    ensures
        (hit == Option::Some(Collision::Left) || hit == Option::Some(Collision::Right)) ==> (
        spec_bounce(v, hit).0.x == -v.0.x && spec_bounce(v, hit).0.y == v.0.y),
        (hit == Option::Some(Collision::Top) || hit == Option::Some(Collision::Bottom)) ==> (
        spec_bounce(v, hit).0.x == v.0.x && spec_bounce(v, hit).0.y == -v.0.y),
        hit == Option::<Collision>::None ==> spec_bounce(v, hit) == v,
        speed_sq(spec_bounce(v, hit)) == speed_sq(v),
{
    assert((-(v.0.x as int)) * (-(v.0.x as int)) == v.0.x * v.0.x) by (nonlinear_arith);
    assert((-(v.0.y as int)) * (-(v.0.y as int)) == v.0.y * v.0.y) by (nonlinear_arith);
}

/// A collision pass without a goal never moves the ball and never changes
/// its speed, however many faces and walls it bounced off: every response
/// is an axis flip, and axis flips preserve the direction's length.
pub proof fn lemma_no_goal_preserves_speed(
    ball: Ball,
    left: Paddle,
    right: Paddle,
    window: Window,
    score: Scoreboard,
    pause: PauseFor,
)
    requires
        ball.vel.wf(),
        !crossed_left(ball.pos.x as int, window.width as int),
        !crossed_right(ball.pos.x as int, window.width as int),
    ensures
        spec_ball_collision(ball, left, right, window, score, pause).ball.pos == ball.pos,
        spec_ball_collision(ball, left, right, window, score, pause).score == score,
        spec_ball_collision(ball, left, right, window, score, pause).pause == pause,
        speed_sq(spec_ball_collision(ball, left, right, window, score, pause).ball.vel)
            == speed_sq(ball.vel),
{
    let hl = spec_collide(ball.pos, spec_ball_size(), left.pos, spec_paddle_size());
    let v1 = spec_bounce(ball.vel, hl);
    lemma_paddle_bounce_flips_one_axis(ball.vel, hl);
    assert(v1.wf());
    let hr = spec_collide(ball.pos, spec_ball_size(), right.pos, spec_paddle_size());
    let v2 = spec_bounce(v1, hr);
    lemma_paddle_bounce_flips_one_axis(v1, hr);
    assert(v2.wf());
    lemma_wall_bounce_flips_only_y(v2);
    assert(spec_flip_y(v2).wf());
    lemma_wall_bounce_flips_only_y(spec_flip_y(v2));
}

/// A collision pass in which the ball has passed the left boundary and no
/// other ends in a goal for the right player, whatever else the ball
/// touched: the ball re-centers, the right score counts up, the pause
/// starts, and the serve leaves the left boundary.
pub proof fn lemma_left_goal_outcome(
    ball: Ball,
    left: Paddle,
    right: Paddle,
    window: Window,
    score: Scoreboard,
    pause: PauseFor,
)
    requires
        crossed_left(ball.pos.x as int, window.width as int),
        !crossed_right(ball.pos.x as int, window.width as int),
        !crossed_bottom(ball.pos.y as int, window.height as int),
        !crossed_top(ball.pos.y as int, window.height as int),
    ensures
        spec_ball_collision(ball, left, right, window, score, pause).ball.pos == (Vec2 {
            x: 0i64,
            y: 0i64,
        }),
        spec_ball_collision(ball, left, right, window, score, pause).ball.vel
            == spec_reset_velocity(Side::Left),
        spec_ball_collision(ball, left, right, window, score, pause).score == Scoreboard(
            score.0,
            score_inc(score.1),
        ),
        spec_ball_collision(ball, left, right, window, score, pause).pause == PauseFor(
            GOAL_PAUSE_MS,
        ),
{
}

/// The mirror image at the right boundary: a goal for the left player,
/// with the serve leaving the right boundary.
pub proof fn lemma_right_goal_outcome(
    ball: Ball,
    left: Paddle,
    right: Paddle,
    window: Window,
    score: Scoreboard,
    pause: PauseFor,
)
    requires
        crossed_right(ball.pos.x as int, window.width as int),
        !crossed_left(ball.pos.x as int, window.width as int),
        !crossed_bottom(ball.pos.y as int, window.height as int),
        !crossed_top(ball.pos.y as int, window.height as int),
    ensures
        spec_ball_collision(ball, left, right, window, score, pause).ball.pos == (Vec2 {
            x: 0i64,
            y: 0i64,
        }),
        spec_ball_collision(ball, left, right, window, score, pause).ball.vel
            == spec_reset_velocity(Side::Right),
        spec_ball_collision(ball, left, right, window, score, pause).score == Scoreboard(
            score_inc(score.0),
            score.1,
        ),
        spec_ball_collision(ball, left, right, window, score, pause).pause == PauseFor(
            GOAL_PAUSE_MS,
        ),
{
}

/// A collision pass in which the ball touches no paddle, crosses no goal
/// boundary, and crosses exactly one of the low and high boundaries is a
/// pure wall bounce: position, score and pause stay; only the vertical
/// velocity component reverses, and the speed is preserved.
pub proof fn lemma_wall_bounce_outcome(
    ball: Ball,
    left: Paddle,
    right: Paddle,
    window: Window,
    score: Scoreboard,
    pause: PauseFor,
)
    requires
        ball.vel.wf(),
        spec_collide(ball.pos, spec_ball_size(), left.pos, spec_paddle_size())
            == Option::<Collision>::None,
        spec_collide(ball.pos, spec_ball_size(), right.pos, spec_paddle_size())
            == Option::<Collision>::None,
        !crossed_left(ball.pos.x as int, window.width as int),
        !crossed_right(ball.pos.x as int, window.width as int),
        crossed_bottom(ball.pos.y as int, window.height as int) != crossed_top(
            ball.pos.y as int,
            window.height as int,
        ),
    ensures
        spec_ball_collision(ball, left, right, window, score, pause).ball.pos == ball.pos,
        spec_ball_collision(ball, left, right, window, score, pause).ball.vel == spec_flip_y(
            ball.vel,
        ),
        spec_ball_collision(ball, left, right, window, score, pause).score == score,
        spec_ball_collision(ball, left, right, window, score, pause).pause == pause,
        speed_sq(spec_ball_collision(ball, left, right, window, score, pause).ball.vel)
            == speed_sq(ball.vel),
{
    lemma_wall_bounce_flips_only_y(ball.vel);
}

} // verus!
