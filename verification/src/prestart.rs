//! The pre-start/playing state machine, the post-goal pause countdown, the
//! run gates derived from them, and the intro-text animation timeline.
//!
//! Each intro text element waits `start_time` milliseconds, then slides in
//! and fades in over `duration` milliseconds.  Fade-in interpolates alpha
//! linearly from 0 to `ALPHA_MAX`; the vertical offset interpolates from
//! `end_pos + SLIDE_OFFSET` toward `end_pos`, on a slower clock (the
//! divisor is `duration * 5 / 4`), so the slide deliberately lags the fade.
//! One element also carries a fade-out countdown; when it has run out and
//! the slide-in window is over, every further tick lowers alpha by a fixed
//! step (floored at zero) and nudges the element downward.  The fade-out
//! waits for the slide-in window to close, so a single process owns alpha
//! in any one tick.

use vstd::prelude::*;
use vstd::arithmetic::div_mod::lemma_div_is_ordered;
use vstd::arithmetic::div_mod::lemma_div_multiples_vanish;
use vstd::arithmetic::div_mod::lemma_div_pos_is_pos;
use vstd::arithmetic::mul::lemma_mul_inequality;
use crate::units::div_trunc;
use crate::units::div_trunc_i64;

verus! {

/// Whether the match has begun: `false` pre-start, `true` once playing.
/// Set to `true` exactly once, by the start input; never reset.
#[derive(Clone, Copy, Debug, PartialEq, Eq, Structural)]
pub struct GameStarted(pub bool);

/// Remaining post-goal pause, in milliseconds; zero when play is live.
#[derive(Clone, Copy, Debug, PartialEq, Eq, Structural)]
pub struct PauseFor(pub u64);

/// Full alpha, in thousandths.
pub const ALPHA_MAX: i64 = 1000;

/// How far above its resting place a text element starts its slide, in
/// thousandths of a unit.
pub const SLIDE_OFFSET: i64 = 13_000;

/// Alpha lost per tick while fading out, in thousandths.
pub const FADE_ALPHA_STEP: i64 = 50;

/// Downward nudge per tick while fading out, in thousandths.
pub const FADE_RISE: i64 = 600;

/// Machine limit on animation offsets, in thousandths.
pub const MAX_OFFSET: i64 = 1_000_000_000;

/// Machine limit on animation times, in milliseconds.
pub const MAX_ANIM_MS: u64 = 1_000_000_000;

/// Machine limit on an element's accumulated elapsed time, in milliseconds.
pub const MAX_ELAPSED_MS: u64 = 1_000_000_000_000;

/// Gate for ball motion and collision: playing, and the post-goal pause has
/// run out.
pub fn run_if_unpaused(mode: &GameStarted, paused: &PauseFor) -> (r: bool)
    ensures
        r == (mode.0 && paused.0 == 0),
{
    mode.0 && paused.0 == 0
}

/// Gate for paddle control: playing, paused or not, so the players can
/// reposition during the post-goal pause.
pub fn run_if_poststart(mode: &GameStarted, _paused: &PauseFor) -> (r: bool)
    ensures
        r == mode.0,
{
    mode.0
}

/// Gate for the intro animation and the start-input listener.
pub fn run_before_start(mode: &GameStarted) -> (r: bool)
    ensures
        r == !mode.0,
{
    !mode.0
}

/// The pause countdown after a tick of `dt` milliseconds: decremented while
/// positive, floored at zero.
pub open spec fn spec_pause_after(p: u64, dt: u64) -> u64 {
    if p > 0 {
        if dt >= p {
            0u64
        } else {
            (p - dt) as u64
        }
    } else {
        p
    }
}

/// Count the post-goal pause down by one tick.
pub fn pause_counter(pause: &mut PauseFor, dt: u64)
    ensures
        final(pause).0 == spec_pause_after(old(pause).0, dt),
{
    if pause.0 > 0 {
        if dt >= pause.0 {
            pause.0 = 0;
        } else {
            pause.0 = pause.0 - dt;
        }
    }
}

/// Timeline of one intro text element: wait `start_time` milliseconds from
/// pre-start entry, then animate in for `duration` milliseconds toward the
/// resting offset `end_pos`.
#[derive(Clone, Copy, Debug, PartialEq, Eq, Structural)]
pub struct TextAnimationMetadata {
    /// Milliseconds of waiting before the animate-in window opens.
    pub start_time: u64,
    /// Length of the animate-in window, in milliseconds.
    pub duration: u64,
    /// Milliseconds accumulated since pre-start entry.
    pub elapsed: u64,
    /// The element's resting vertical offset, in thousandths.
    pub end_pos: i64,
}

impl TextAnimationMetadata {
    /// The timeline's machine limits: a positive, bounded window and a
    /// bounded resting offset.
    pub open spec fn wf(self) -> bool {
        &&& 0 < self.duration <= MAX_ANIM_MS
        &&& self.start_time <= MAX_ANIM_MS
        &&& -MAX_OFFSET <= self.end_pos <= MAX_OFFSET
    }
}

/// One pre-start text element: its timeline, an optional fade-out countdown
/// in milliseconds, and its current alpha and vertical offset.
#[derive(Clone, Copy, Debug, PartialEq, Eq, Structural)]
pub struct IntroText {
    pub anim: TextAnimationMetadata,
    /// Milliseconds until the fade-out begins, if this element fades back
    /// out at all.
    pub out_after: Option<u64>,
    /// Current alpha, in thousandths of full opacity.
    pub alpha: i64,
    /// Current vertical offset, in thousandths.
    pub top: i64,
}

impl IntroText {
    /// The element's invariant: a well-formed timeline and alpha within
    /// `[0, ALPHA_MAX]`.
    pub open spec fn wf(self) -> bool {
        &&& self.anim.wf()
        &&& 0 <= self.alpha <= ALPHA_MAX
    }
}

/// Linear interpolation from `start` to `end`, `elapsed` milliseconds into
/// a window of `duration`; division truncates toward zero.
pub open spec fn spec_gradient(start: int, end: int, elapsed: int, duration: int) -> int {
    if elapsed == 0 {
        start
    } else {
        start + div_trunc((end - start) * elapsed, duration)
    }
}

/// Interpolate between two offsets; the result never leaves the interval
/// between them.
pub fn gradient(start: i64, end: i64, elapsed: u64, duration: u64) -> (r: i64)
    requires
        0 < duration <= MAX_ANIM_MS * 2,
        elapsed <= duration,
        -MAX_OFFSET <= start <= MAX_OFFSET + SLIDE_OFFSET,
        -MAX_OFFSET <= end <= MAX_OFFSET + SLIDE_OFFSET,
    ensures
        r == spec_gradient(start as int, end as int, elapsed as int, duration as int),
        start <= end ==> start <= r <= end,
        end <= start ==> end <= r <= start,
{
    if elapsed == 0 {
        start
    } else {
        let diff: i64 = end - start;
        proof {
            assert(-5_000_000_000_000_000_000 <= diff * (elapsed as int)
                <= 5_000_000_000_000_000_000) by (nonlinear_arith)
                requires
                    -2_100_000_000 <= diff <= 2_100_000_000,
                    0 <= elapsed as int <= 2_000_000_000,
            ;
        }
        let num: i64 = diff * (elapsed as i64);
        let q: i64 = div_trunc_i64(num, duration as i64);
        proof {
            let d = duration as int;
            let e = elapsed as int;
            if diff >= 0 {
                assert(0 <= diff * e <= diff * d) by (nonlinear_arith)
                    requires
                        0 <= diff,
                        0 <= e <= d,
                ;
                lemma_div_is_ordered(diff * e, diff * d, d);
                lemma_div_multiples_vanish(diff as int, d);
                lemma_div_pos_is_pos(diff * e, d);
                assert(d * diff == diff * d) by (nonlinear_arith);
                assert(0 <= q <= diff);
            } else {
                assert(0 <= (-diff) * e <= (-diff) * d) by (nonlinear_arith)
                    requires
                        0 <= -diff,
                        0 <= e <= d,
                ;
                lemma_div_is_ordered((-diff) * e, (-diff) * d, d);
                lemma_div_multiples_vanish(-diff as int, d);
                lemma_div_pos_is_pos((-diff) * e, d);
                assert(d * -diff == (-diff) * d) by (nonlinear_arith);
                assert((-(diff as int)) * e == -(diff * e)) by (nonlinear_arith);
                assert(diff <= q <= 0);
            }
        }
        start + q
    }
}

/// The alpha the animate-in process writes `elapsed` milliseconds into its
/// window of `duration`: a linear ramp from 0 to `ALPHA_MAX`.
pub open spec fn alpha_at(elapsed: int, duration: int) -> int {
    spec_gradient(0, ALPHA_MAX as int, elapsed, duration)
}

/// Before the window opens no alpha has been written: the ramp starts at
/// zero.
pub proof fn lemma_alpha_starts_at_zero(duration: int)
    requires
        0 < duration,
    ensures
        alpha_at(0, duration) == 0,
{
}

/// At the close of the window the ramp reaches full alpha.
pub proof fn lemma_alpha_full_at_end(duration: int)
    requires
        0 < duration,
    ensures
        alpha_at(duration, duration) == ALPHA_MAX,
{
    lemma_div_multiples_vanish(ALPHA_MAX as int, duration);
    assert(duration * ALPHA_MAX == ALPHA_MAX * duration) by (nonlinear_arith);
}

/// Within the window the ramp never decreases.
pub proof fn lemma_alpha_monotone(e1: int, e2: int, duration: int)
    requires
        0 < duration,
        0 <= e1 <= e2 <= duration,
    ensures
        alpha_at(e1, duration) <= alpha_at(e2, duration),
{
    if e1 != 0 {
        lemma_mul_inequality(e1, e2, ALPHA_MAX as int);
        assert(ALPHA_MAX * e1 == e1 * ALPHA_MAX) by (nonlinear_arith);
        assert(ALPHA_MAX * e2 == e2 * ALPHA_MAX) by (nonlinear_arith);
        lemma_div_is_ordered(ALPHA_MAX * e1, ALPHA_MAX * e2, duration);
    } else {
        if e2 != 0 {
            lemma_mul_inequality(0, e2, ALPHA_MAX as int);
            assert(ALPHA_MAX * e2 == e2 * ALPHA_MAX) by (nonlinear_arith);
            lemma_div_pos_is_pos(ALPHA_MAX * e2, duration);
        }
    }
}

/// The element state the animate-in process leaves after a tick of `dt`
/// milliseconds: the elapsed clock always advances; alpha and offset are
/// rewritten only while the clock sits inside the animate-in window.
pub open spec fn spec_animate_in(t: IntroText, dt: u64) -> IntroText {
    let elapsed = (t.anim.elapsed + dt) as u64;
    let advanced = IntroText {
        anim: TextAnimationMetadata { elapsed, ..t.anim },
        ..t
    };
    if elapsed < t.anim.start_time {
        advanced
    } else if elapsed - t.anim.start_time <= t.anim.duration {
        let into = elapsed - t.anim.start_time;
        IntroText {
            alpha: alpha_at(into as int, t.anim.duration as int) as i64,
            top: spec_gradient(
                t.anim.end_pos + SLIDE_OFFSET,
                t.anim.end_pos as int,
                into as int,
                t.anim.duration as int * 5 / 4,
            ) as i64,
            ..advanced
        }
    } else {
        advanced
    }
}

/// Drive one element's animate-in timeline for one tick.
pub fn animate_text_in_system(t: &mut IntroText, dt: u64)
    requires
        old(t).wf(),
        old(t).anim.elapsed <= MAX_ELAPSED_MS,
        dt <= crate::units::MAX_TICK_MS,
    ensures
        *final(t) == spec_animate_in(*old(t), dt),
        final(t).wf(),
        final(t).anim.elapsed == old(t).anim.elapsed + dt,
        final(t).top == old(t).top || -MAX_OFFSET <= final(t).top <= MAX_OFFSET + SLIDE_OFFSET,
{
    t.anim.elapsed = t.anim.elapsed + dt;
    let meta = t.anim;
    if meta.elapsed < meta.start_time {
    } else if meta.elapsed - meta.start_time <= meta.duration {
        let into: u64 = meta.elapsed - meta.start_time;
        t.alpha = gradient(0, ALPHA_MAX, into, meta.duration);
        let slide_duration: u64 = meta.duration * 5 / 4;
        assert(into <= slide_duration);
        t.top = gradient(meta.end_pos + SLIDE_OFFSET, meta.end_pos, into, slide_duration);
    }
}

/// While the clock has not yet reached the animate-in window, a tick
/// leaves a transparent element transparent.
pub proof fn lemma_alpha_zero_before_window(t: IntroText, dt: u64)
    requires
        t.alpha == 0,
        t.anim.elapsed + dt < t.anim.start_time,
    ensures
        spec_animate_in(t, dt).alpha == 0,
{
}

/// A tick whose clock lands exactly on the close of the animate-in window
/// leaves the element fully opaque.
pub proof fn lemma_alpha_full_at_window_close(t: IntroText, dt: u64)
    requires
        t.anim.wf(),
        t.anim.elapsed + dt == t.anim.start_time + t.anim.duration,
    ensures
        spec_animate_in(t, dt).alpha == ALPHA_MAX,
{
    lemma_alpha_full_at_end(t.anim.duration as int);
}

/// The element state the fade-out process leaves after one tick: the
/// countdown runs first; once it has run out and the slide-in window is
/// over, each tick lowers alpha by `FADE_ALPHA_STEP` (floored at zero) and
/// moves the element down by `FADE_RISE` (floored at offset zero).
pub open spec fn spec_animate_out(t: IntroText, dt: u64) -> IntroText {
    match t.out_after {
        Option::None => t,
        Option::Some(rem) => {
            if rem > 0 {
                IntroText { out_after: Option::Some(spec_pause_after(rem, dt)), ..t }
            } else if t.anim.elapsed > t.anim.start_time + t.anim.duration {
                let alpha = if t.alpha >= FADE_ALPHA_STEP {
                    (t.alpha - FADE_ALPHA_STEP) as i64
                } else {
                    0
                };
                let top = if t.top + FADE_RISE >= 0 {
                    (t.top + FADE_RISE) as i64
                } else {
                    0
                };
                IntroText { alpha, top, ..t }
            } else {
                t
            }
        },
    }
}

/// Drive one element's fade-out for one tick.
pub fn animate_text_out_system(t: &mut IntroText, dt: u64)
    requires
        old(t).wf(),
        old(t).top <= crate::units::MAX_COORD,
    ensures
        *final(t) == spec_animate_out(*old(t), dt),
        final(t).wf(),
{
    match t.out_after {
        Option::None => {
        },
        Option::Some(rem) => {
            if rem > 0 {
                if dt >= rem {
                    t.out_after = Option::Some(0);
                } else {
                    t.out_after = Option::Some(rem - dt);
                }
            } else if t.anim.elapsed > t.anim.start_time + t.anim.duration {
                if t.alpha >= FADE_ALPHA_STEP {
                    t.alpha = t.alpha - FADE_ALPHA_STEP;
                } else {
                    t.alpha = 0;
                }
                if t.top + FADE_RISE >= 0 {
                    t.top = t.top + FADE_RISE;
                } else {
                    t.top = 0;
                }
            }
        },
    }
}

/// The two intro text elements, alive only before the start input.
#[derive(Clone, Copy, Debug, PartialEq, Eq, Structural)]
pub struct IntroScreen {
    /// The control-hints line; it fades back out after a while.
    pub controls_text: IntroText,
    /// The start-prompt line; it stays once shown.
    pub start_text: IntroText,
}

/// Waiting time before the control-hints line animates in, in milliseconds.
pub const CONTROLS_TEXT_START_MS: u64 = 500;

/// Waiting time before the start-prompt line animates in, in milliseconds.
pub const START_TEXT_START_MS: u64 = 3500;

/// Length of each line's animate-in window, in milliseconds.
pub const TEXT_IN_MS: u64 = 500;

/// Milliseconds until the control-hints line begins to fade back out.
pub const CONTROLS_TEXT_OUT_MS: u64 = 2500;

/// Resting vertical offset of the control-hints line, in thousandths.
pub const CONTROLS_TEXT_POS: i64 = 10_000;

/// Resting vertical offset of the start-prompt line, in thousandths.
pub const START_TEXT_POS: i64 = 5_000;

/// The intro screen as set up at pre-start entry: both elements
/// transparent, resting at their end offsets, clocks at zero.
pub open spec fn spec_intro_screen() -> IntroScreen {
    IntroScreen {
        controls_text: IntroText {
            anim: TextAnimationMetadata {
                start_time: CONTROLS_TEXT_START_MS,
                duration: TEXT_IN_MS,
                elapsed: 0,
                end_pos: CONTROLS_TEXT_POS,
            },
            out_after: Option::Some(CONTROLS_TEXT_OUT_MS),
            alpha: 0,
            top: CONTROLS_TEXT_POS,
        },
        start_text: IntroText {
            anim: TextAnimationMetadata {
                start_time: START_TEXT_START_MS,
                duration: TEXT_IN_MS,
                elapsed: 0,
                end_pos: START_TEXT_POS,
            },
            out_after: Option::<u64>::None,
            alpha: 0,
            top: START_TEXT_POS,
        },
    }
}

impl IntroScreen {
    /// Build the pre-start intro screen.
    pub fn new() -> (r: IntroScreen)
        ensures
            r == spec_intro_screen(),
            r.controls_text.wf(),
            r.start_text.wf(),
    {
        IntroScreen {
            controls_text: IntroText {
                anim: TextAnimationMetadata {
                    start_time: CONTROLS_TEXT_START_MS,
                    duration: TEXT_IN_MS,
                    elapsed: 0,
                    end_pos: CONTROLS_TEXT_POS,
                },
                out_after: Option::Some(CONTROLS_TEXT_OUT_MS),
                alpha: 0,
                top: CONTROLS_TEXT_POS,
            },
            start_text: IntroText {
                anim: TextAnimationMetadata {
                    start_time: START_TEXT_START_MS,
                    duration: TEXT_IN_MS,
                    elapsed: 0,
                    end_pos: START_TEXT_POS,
                },
                out_after: Option::<u64>::None,
                alpha: 0,
                top: START_TEXT_POS,
            },
        }
    }
}

/// Fire the pre-start to playing transition on the start input: mark the
/// match started and take down every pre-start-only element.  Harmless if
/// the match is already running: the flag stays set and an absent intro
/// screen stays absent.
pub fn start_game(mode: &mut GameStarted, intro: &mut Option<IntroScreen>, start_pressed: bool)
    ensures
        final(mode).0 == (old(mode).0 || start_pressed),
        *final(intro) == if start_pressed {
            Option::<IntroScreen>::None
        } else {
            *old(intro)
        },
{
    if start_pressed {
        mode.0 = true;
        *intro = Option::None;
    }
}

} // verus!
