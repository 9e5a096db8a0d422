//! The whole game world and its per-tick update.
//!
//! One external scheduler drives the world: each tick it hands over the
//! current input, the window size and the elapsed milliseconds.  The run
//! gates are evaluated against the state at the tick's start, as a staged
//! scheduler evaluates its run criteria, so a pause that runs out during a
//! tick frees the ball only at the next one.

use vstd::prelude::*;
use crate::collide::Vec2;
use crate::prestart::GameStarted;
use crate::prestart::IntroScreen;
use crate::prestart::MAX_ELAPSED_MS;
use crate::prestart::PauseFor;
use crate::prestart::animate_text_in_system;
use crate::prestart::animate_text_out_system;
use crate::prestart::pause_counter;
use crate::prestart::run_before_start;
use crate::prestart::run_if_poststart;
use crate::prestart::run_if_unpaused;
use crate::prestart::spec_animate_in;
use crate::prestart::spec_animate_out;
use crate::prestart::spec_intro_screen;
use crate::prestart::spec_pause_after;
use crate::prestart::start_game;
use crate::scoreboard::Scoreboard;
use crate::sim::Ball;
use crate::sim::Paddle;
use crate::sim::Side;
use crate::sim::Velocity;
use crate::sim::Window;
use crate::sim::ball_collision_system;
use crate::sim::ball_movement_system;
use crate::sim::control_system;
use crate::sim::spec_ball_collision;
use crate::sim::spec_ball_move;
use crate::sim::spec_paddle_y_step;
use crate::sim::window_resize_system;
use crate::units::MAX_COORD;
use crate::units::MAX_TICK_MS;
use crate::units::RESET_DIR_X;
use crate::units::RESET_DIR_Y;

verus! {

/// One tick's input: whether each paddle's control keys are held, and
/// whether the start key was just pressed.
#[derive(Clone, Copy, Debug, PartialEq, Eq, Structural)]
pub struct Input {
    pub left_up: bool,
    pub left_down: bool,
    pub right_up: bool,
    pub right_down: bool,
    pub start: bool,
}

impl Input {
    /// A tick with no key activity.
    pub fn idle() -> (r: Input)
        ensures
            r == (Input {
                left_up: false,
                left_down: false,
                right_up: false,
                right_down: false,
                start: false,
            }),
    {
        Input { left_up: false, left_down: false, right_up: false, right_down: false, start: false }
    }
}

/// The whole game world.
#[derive(Clone, Copy, Debug, PartialEq, Eq, Structural)]
pub struct Game {
    pub started: GameStarted,
    pub pause: PauseFor,
    pub score: Scoreboard,
    pub left: Paddle,
    pub right: Paddle,
    pub ball: Ball,
    /// The pre-start text, taken down on the start input.
    pub intro: Option<IntroScreen>,
}

impl Game {
    /// The world's invariant: the paddles keep their sides, the ball keeps
    /// a unit-scale direction, and any intro text is well formed.
    pub open spec fn wf(self) -> bool {
        &&& self.left.side == Side::Left
        &&& self.right.side == Side::Right
        &&& self.ball.vel.wf()
        &&& match self.intro {
            Option::Some(s) => s.controls_text.wf() && s.start_text.wf(),
            Option::None => true,
        }
    }

    /// Machine limits the world must satisfy at a tick's start.
    pub open spec fn tick_bounds(self) -> bool {
        &&& self.left.in_range()
        &&& self.right.in_range()
        &&& self.ball.in_range()
        &&& match self.intro {
            Option::Some(s) => {
                &&& s.controls_text.anim.elapsed <= MAX_ELAPSED_MS
                &&& s.start_text.anim.elapsed <= MAX_ELAPSED_MS
                &&& s.controls_text.top <= MAX_COORD
                &&& s.start_text.top <= MAX_COORD
            },
            Option::None => true,
        }
    }
}

/// The world at startup: pre-start, no pause, no score, both paddles at the
/// center height awaiting the first resize pass, the ball at the center
/// with the initial serve direction, and the intro screen up.
pub open spec fn spec_initial_game() -> Game {
    Game {
        started: GameStarted(false),
        pause: PauseFor(0),
        score: Scoreboard(0, 0),
        left: Paddle { side: Side::Left, pos: Vec2 { x: 0, y: 0 } },
        right: Paddle { side: Side::Right, pos: Vec2 { x: 0, y: 0 } },
        ball: Ball {
            pos: Vec2 { x: 0, y: 0 },
            vel: Velocity(Vec2 { x: RESET_DIR_X, y: RESET_DIR_Y }),
        },
        intro: Option::Some(spec_intro_screen()),
    }
}

/// Build the world at startup.
pub fn initial_game() -> (r: Game)
    ensures
        r == spec_initial_game(),
        r.wf(),
        r.tick_bounds(),
{
    Game {
        started: GameStarted(false),
        pause: PauseFor(0),
        score: Scoreboard(0, 0),
        left: Paddle { side: Side::Left, pos: Vec2 { x: 0, y: 0 } },
        right: Paddle { side: Side::Right, pos: Vec2 { x: 0, y: 0 } },
        ball: Ball {
            pos: Vec2 { x: 0, y: 0 },
            vel: Velocity(Vec2 { x: RESET_DIR_X, y: RESET_DIR_Y }),
        },
        intro: Option::Some(IntroScreen::new()),
    }
}

/// The intro screen after one pre-start tick: each element's animate-in
/// runs, then its fade-out.
pub open spec fn spec_intro_tick(s: IntroScreen, dt: u64) -> IntroScreen {
    IntroScreen {
        controls_text: spec_animate_out(spec_animate_in(s.controls_text, dt), dt),
        start_text: spec_animate_out(spec_animate_in(s.start_text, dt), dt),
    }
}

/// The world after one scheduler tick.  The gates derive from the state at
/// the tick's start: pre-start runs the intro animation and the start
/// listener; playing runs paddle control, paused or not; playing unpaused
/// also moves the ball and resolves its collisions.  The pause countdown
/// runs every tick.
pub open spec fn spec_tick(g: Game, input: Input, window: Window, dt: u64) -> Game {
    let unpaused = g.started.0 && g.pause.0 == 0;
    let poststart = g.started.0;
    let prestart = !g.started.0;
    let g1 = Game { pause: PauseFor(spec_pause_after(g.pause.0, dt)), ..g };
    let g2 = if prestart {
        let intro1 = match g1.intro {
            Option::Some(s) => Option::Some(spec_intro_tick(s, dt)),
            Option::None => Option::None,
        };
        Game {
            started: GameStarted(g1.started.0 || input.start),
            intro: if input.start {
                Option::None
            } else {
                intro1
            },
            ..g1
        }
    } else {
        g1
    };
    let g3 = if poststart {
        Game {
            left: Paddle {
                side: g2.left.side,
                pos: Vec2 {
                    x: g2.left.pos.x,
                    y: spec_paddle_y_step(
                        g2.left.pos.y as int,
                        input.left_up,
                        input.left_down,
                        window.height as int,
                        dt as int,
                    ) as i64,
                },
            },
            right: Paddle {
                side: g2.right.side,
                pos: Vec2 {
                    x: g2.right.pos.x,
                    y: spec_paddle_y_step(
                        g2.right.pos.y as int,
                        input.right_up,
                        input.right_down,
                        window.height as int,
                        dt as int,
                    ) as i64,
                },
            },
            ..g2
        }
    } else {
        g2
    };
    if unpaused {
        let moved = spec_ball_move(g3.ball, dt as int);
        let o = spec_ball_collision(moved, g3.left, g3.right, window, g3.score, g3.pause);
        Game { ball: o.ball, score: o.score, pause: o.pause, ..g3 }
    } else {
        g3
    }
}

/// Run one scheduler tick over the whole world.  While the post-goal pause
/// is still running at the tick's start, the ball does not move; the
/// started flag, once set, is never cleared; and the start input both
/// starts the match and takes the intro screen down.
pub fn tick(game: &mut Game, input: &Input, window: &Window, dt: u64)
    requires
        old(game).wf(),
        old(game).tick_bounds(),
        window.wf(),
        dt <= MAX_TICK_MS,
    ensures
        *final(game) == spec_tick(*old(game), *input, *window, dt),
        final(game).wf(),
        old(game).pause.0 > 0 ==> final(game).ball.pos == old(game).ball.pos,
        old(game).started.0 ==> final(game).started == old(game).started,
        (!old(game).started.0 && input.start) ==> (final(game).started.0 && final(game).intro
            == Option::<IntroScreen>::None),
{
    let unpaused = run_if_unpaused(&game.started, &game.pause);
    let poststart = run_if_poststart(&game.started, &game.pause);
    let prestart = run_before_start(&game.started);
    pause_counter(&mut game.pause, dt);
    if prestart {
        match &mut game.intro {
            Option::Some(s) => {
                animate_text_in_system(&mut s.controls_text, dt);
                animate_text_out_system(&mut s.controls_text, dt);
                animate_text_in_system(&mut s.start_text, dt);
                animate_text_out_system(&mut s.start_text, dt);
            },
            Option::None => {
            },
        }
        start_game(&mut game.started, &mut game.intro, input.start);
    }
    if poststart {
        control_system(&mut game.left, input.left_up, input.left_down, window, dt);
        control_system(&mut game.right, input.right_up, input.right_down, window, dt);
    }
    if unpaused {
        ball_movement_system(&mut game.ball, dt);
        ball_collision_system(
            &mut game.ball,
            &game.left,
            &game.right,
            window,
            &mut game.score,
            &mut game.pause,
        );
    }
}

/// Reposition both paddles for the current window size; the host calls
/// this at startup and whenever it signals a resize.
pub fn window_resize(game: &mut Game, window: &Window)
    requires
        window.wf(),
    ensures
        final(game).left.pos.x == crate::sim::spec_paddle_x(
            old(game).left.side,
            window.width as int,
        ),
        final(game).right.pos.x == crate::sim::spec_paddle_x(
            old(game).right.side,
            window.width as int,
        ),
        final(game).left.pos.y == old(game).left.pos.y,
        final(game).right.pos.y == old(game).right.pos.y,
        final(game).left.side == old(game).left.side,
        final(game).right.side == old(game).right.side,
        final(game).started == old(game).started,
        final(game).pause == old(game).pause,
        final(game).score == old(game).score,
        final(game).ball == old(game).ball,
        final(game).intro == old(game).intro,
{
    window_resize_system(&mut game.left, window);
    window_resize_system(&mut game.right, window);
}

/// Once the match has begun, a further start input changes nothing: the
/// tick outcome is the one an absent start input gives, and the intro
/// screen, already down, stays untouched.
pub proof fn lemma_start_input_idempotent(g: Game, input: Input, window: Window, dt: u64)
    requires
        g.started.0,
    ensures
        spec_tick(g, input, window, dt) == spec_tick(
            g,
            Input { start: false, ..input },
            window,
            dt,
        ),
        spec_tick(g, input, window, dt).intro == g.intro,
        spec_tick(g, input, window, dt).started == g.started,
{
}

/// While the post-goal pause is running at a tick's start, the ball's
/// position and velocity, and the score, stay exactly as they are, whatever
/// the input.
pub proof fn lemma_pause_freezes_ball(g: Game, input: Input, window: Window, dt: u64)
    requires
        g.pause.0 > 0,
    ensures
        spec_tick(g, input, window, dt).ball == g.ball,
        spec_tick(g, input, window, dt).score == g.score,
{
}

} // verus!
