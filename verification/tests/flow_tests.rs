use pong_core::collide::Vec2;
use pong_core::game::Game;
use pong_core::game::Input;
use pong_core::game::initial_game;
use pong_core::game::tick;
use pong_core::game::window_resize;
use pong_core::prestart::GameStarted;
use pong_core::prestart::IntroText;
use pong_core::prestart::PauseFor;
use pong_core::prestart::TextAnimationMetadata;
use pong_core::prestart::animate_text_in_system;
use pong_core::prestart::animate_text_out_system;
use pong_core::prestart::gradient;
use pong_core::prestart::pause_counter;
use pong_core::prestart::run_before_start;
use pong_core::prestart::run_if_poststart;
use pong_core::prestart::run_if_unpaused;
use pong_core::scoreboard::Scoreboard;
use pong_core::scoreboard::generate_score;
use pong_core::sim::Velocity;
use pong_core::sim::Window;

fn window_800_by_600() -> Window {
    Window { width: 800_000, height: 600_000 }
}

fn started_game() -> Game {
    let mut game = initial_game();
    window_resize(&mut game, &window_800_by_600());
    let start = Input { left_up: false, left_down: false, right_up: false, right_down: false, start: true };
    tick(&mut game, &start, &window_800_by_600(), 16);
    game
}

#[test]
fn gates_follow_the_state_machine() {
    assert!(run_before_start(&GameStarted(false)));
    assert!(!run_before_start(&GameStarted(true)));
    assert!(!run_if_poststart(&GameStarted(false), &PauseFor(0)));
    assert!(run_if_poststart(&GameStarted(true), &PauseFor(500)));
    assert!(run_if_unpaused(&GameStarted(true), &PauseFor(0)));
    assert!(!run_if_unpaused(&GameStarted(true), &PauseFor(1)));
    assert!(!run_if_unpaused(&GameStarted(false), &PauseFor(0)));
}

#[test]
fn pause_counts_down_and_floors_at_zero() {
    let mut pause = PauseFor(1000);
    pause_counter(&mut pause, 300);
    assert_eq!(pause, PauseFor(700));
    pause_counter(&mut pause, 900);
    assert_eq!(pause, PauseFor(0));
    pause_counter(&mut pause, 100);
    assert_eq!(pause, PauseFor(0));
}

#[test]
fn gradient_interpolates_linearly() {
    assert_eq!(gradient(0, 1000, 0, 500), 0);
    assert_eq!(gradient(0, 1000, 250, 500), 500);
    assert_eq!(gradient(0, 1000, 500, 500), 1000);
    assert_eq!(gradient(23_000, 10_000, 250, 625), 17_800);
}

fn fresh_text() -> IntroText {
    IntroText {
        anim: TextAnimationMetadata {
            start_time: 500,
            duration: 500,
            elapsed: 0,
            end_pos: 10_000,
        },
        out_after: Some(2500),
        alpha: 0,
        top: 10_000,
    }
}

#[test]
fn intro_text_stays_transparent_before_its_window() {
    let mut text = fresh_text();
    animate_text_in_system(&mut text, 300);
    assert_eq!(text.alpha, 0);
    assert_eq!(text.top, 10_000);
    assert_eq!(text.anim.elapsed, 300);
}

#[test]
fn intro_text_fades_in_monotonically_and_reaches_full_alpha() {
    let mut text = fresh_text();
    animate_text_in_system(&mut text, 300);
    let mut last = text.alpha;
    for _ in 0..7 {
        animate_text_in_system(&mut text, 100);
        assert!(text.alpha >= last);
        last = text.alpha;
    }
    assert_eq!(text.anim.elapsed, 1000);
    assert_eq!(text.alpha, 1000);
}

#[test]
fn intro_text_slide_lags_its_fade() {
    let mut text = fresh_text();
    // Land 250 ms into the window: alpha is halfway, the slide is not.
    animate_text_in_system(&mut text, 750);
    assert_eq!(text.alpha, 500);
    // From 23_000 toward 10_000 on the slower clock: 23_000 - 5_200.
    assert_eq!(text.top, 17_800);
}

#[test]
fn intro_text_fades_out_after_its_countdown() {
    let mut text = fresh_text();
    // Walk past the animate-in window and the fade-out countdown.
    animate_text_in_system(&mut text, 1000);
    assert_eq!(text.alpha, 1000);
    // The slide's slower clock leaves the element short of its resting
    // offset when the window closes: 23_000 - 13_000 * 500 / 625.
    assert_eq!(text.top, 12_600);
    animate_text_out_system(&mut text, 2500);
    assert_eq!(text.out_after, Some(0));
    assert_eq!(text.alpha, 1000);
    animate_text_in_system(&mut text, 100);
    animate_text_out_system(&mut text, 100);
    assert_eq!(text.alpha, 950);
    assert_eq!(text.top, 13_200);
}

#[test]
fn ball_holds_still_before_the_start_input() {
    let mut game = initial_game();
    window_resize(&mut game, &window_800_by_600());
    let idle = Input::idle();
    let ball_before = game.ball;
    tick(&mut game, &idle, &window_800_by_600(), 16);
    tick(&mut game, &idle, &window_800_by_600(), 16);
    assert!(!game.started.0);
    assert_eq!(game.ball, ball_before);
    assert!(game.intro.is_some());
}

#[test]
fn start_input_begins_play_and_takes_the_intro_down() {
    let game = started_game();
    assert!(game.started.0);
    assert!(game.intro.is_none());
    assert_eq!(game.score, Scoreboard(0, 0));
}

#[test]
fn second_start_input_changes_nothing_more() {
    let game = started_game();
    let mut with_start = game;
    let mut without_start = game;
    let start = Input { start: true, ..Input::idle() };
    tick(&mut with_start, &start, &window_800_by_600(), 16);
    tick(&mut without_start, &Input::idle(), &window_800_by_600(), 16);
    assert_eq!(with_start, without_start);
    assert!(with_start.started.0);
    assert!(with_start.intro.is_none());
}

#[test]
fn ball_moves_once_play_begins() {
    let mut game = started_game();
    let before = game.ball.pos;
    tick(&mut game, &Input::idle(), &window_800_by_600(), 16);
    // 928 and 371 thousandths of direction at 250 units/s over 16 ms.
    assert_eq!(game.ball.pos.x, before.x + 3_712);
    assert_eq!(game.ball.pos.y, before.y + 1_484);
}

#[test]
fn pause_freezes_the_ball_but_not_the_paddles() {
    let mut game = started_game();
    game.pause = PauseFor(500);
    let ball_before = game.ball;
    let input = Input { left_up: true, ..Input::idle() };
    tick(&mut game, &input, &window_800_by_600(), 16);
    assert_eq!(game.ball, ball_before);
    assert_eq!(game.pause, PauseFor(484));
    assert_eq!(game.left.pos.y, 8_000);
}

#[test]
fn goal_scenario_at_the_left_boundary() {
    let mut game = started_game();
    game.ball.pos = Vec2 { x: -399_000, y: 0 };
    game.ball.vel = Velocity(Vec2 { x: -1000, y: 0 });
    tick(&mut game, &Input::idle(), &window_800_by_600(), 16);
    assert_eq!(game.score, Scoreboard(0, 1));
    assert_eq!(game.ball.pos, Vec2 { x: 0, y: 0 });
    assert_eq!(game.pause, PauseFor(1000));
    assert_eq!(game.ball.vel, Velocity(Vec2 { x: 928, y: 371 }));
}

#[test]
fn goal_scenario_at_the_right_boundary() {
    let mut game = started_game();
    game.ball.pos = Vec2 { x: 399_000, y: 0 };
    game.ball.vel = Velocity(Vec2 { x: 1000, y: 0 });
    tick(&mut game, &Input::idle(), &window_800_by_600(), 16);
    assert_eq!(game.score, Scoreboard(1, 0));
    assert_eq!(game.ball.pos, Vec2 { x: 0, y: 0 });
    assert_eq!(game.pause, PauseFor(1000));
    assert_eq!(game.ball.vel, Velocity(Vec2 { x: -928, y: -371 }));
}

#[test]
fn play_resumes_when_the_pause_runs_out() {
    let mut game = started_game();
    game.pause = PauseFor(20);
    let before = game.ball.pos;
    tick(&mut game, &Input::idle(), &window_800_by_600(), 16);
    assert_eq!(game.ball.pos, before);
    assert_eq!(game.pause, PauseFor(4));
    tick(&mut game, &Input::idle(), &window_800_by_600(), 16);
    assert_eq!(game.ball.pos, before);
    assert_eq!(game.pause, PauseFor(0));
    tick(&mut game, &Input::idle(), &window_800_by_600(), 16);
    assert_ne!(game.ball.pos, before);
}

#[test]
fn score_line_renders_both_counters() {
    assert_eq!(generate_score(&Scoreboard(0, 0)), "0 0");
    assert_eq!(generate_score(&Scoreboard(7, 10)), "7 10");
    assert_eq!(generate_score(&Scoreboard(12, 255)), "12 255");
    assert_eq!(generate_score(&Scoreboard(100, 99)), "100 99");
}
