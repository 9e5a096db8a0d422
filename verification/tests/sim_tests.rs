use pong_core::collide::Collision;
use pong_core::collide::Vec2;
use pong_core::collide::collide;
use pong_core::prestart::PauseFor;
use pong_core::scoreboard::Scoreboard;
use pong_core::sim::Ball;
use pong_core::sim::Paddle;
use pong_core::sim::Side;
use pong_core::sim::Velocity;
use pong_core::sim::Window;
use pong_core::sim::apply_bounce;
use pong_core::sim::ball_collision_system;
use pong_core::sim::ball_movement_system;
use pong_core::sim::control_system;
use pong_core::sim::window_resize_system;

fn window_800_by_600() -> Window {
    Window { width: 800_000, height: 600_000 }
}

fn parked_paddles() -> (Paddle, Paddle) {
    (
        Paddle { side: Side::Left, pos: Vec2 { x: -350_000, y: 0 } },
        Paddle { side: Side::Right, pos: Vec2 { x: 350_000, y: 0 } },
    )
}

#[test]
fn resize_places_paddles_at_fixed_insets() {
    let window = window_800_by_600();
    let mut left = Paddle { side: Side::Left, pos: Vec2 { x: 0, y: 7_000 } };
    let mut right = Paddle { side: Side::Right, pos: Vec2 { x: 0, y: -3_000 } };
    window_resize_system(&mut left, &window);
    window_resize_system(&mut right, &window);
    assert_eq!(left.pos.x, -350_000);
    assert_eq!(right.pos.x, 350_000);
    assert_eq!(left.pos.y, 7_000);
    assert_eq!(right.pos.y, -3_000);
}

#[test]
fn paddle_moves_up_while_key_held() {
    let window = window_800_by_600();
    let mut paddle = Paddle { side: Side::Left, pos: Vec2 { x: -350_000, y: 0 } };
    control_system(&mut paddle, true, false, &window, 100);
    assert_eq!(paddle.pos.y, 50_000);
    control_system(&mut paddle, false, true, &window, 40);
    assert_eq!(paddle.pos.y, 30_000);
    control_system(&mut paddle, false, false, &window, 500);
    assert_eq!(paddle.pos.y, 30_000);
}

#[test]
fn paddle_is_clamped_to_the_window() {
    let window = window_800_by_600();
    let mut paddle = Paddle { side: Side::Left, pos: Vec2 { x: -350_000, y: 230_000 } };
    control_system(&mut paddle, true, false, &window, 1000);
    assert_eq!(paddle.pos.y, 240_000);
    let mut low = Paddle { side: Side::Right, pos: Vec2 { x: 350_000, y: -230_000 } };
    control_system(&mut low, false, true, &window, 1000);
    assert_eq!(low.pos.y, -240_000);
}

#[test]
fn ball_integrates_position_from_velocity() {
    let mut ball = Ball {
        pos: Vec2 { x: 1_000, y: -2_000 },
        vel: Velocity(Vec2 { x: 1000, y: -500 }),
    };
    ball_movement_system(&mut ball, 16);
    // 1000 thousandths of direction at 250 units/s over 16 ms: 4000.
    assert_eq!(ball.pos.x, 5_000);
    assert_eq!(ball.pos.y, -4_000);
    assert_eq!(ball.vel.0.x, 1000);
    assert_eq!(ball.vel.0.y, -500);
}

#[test]
fn collide_reports_the_struck_left_face() {
    let pad = Vec2 { x: 0, y: 0 };
    let pad_size = Vec2 { x: 30_000, y: 120_000 };
    let ball_size = Vec2 { x: 30_000, y: 30_000 };
    let hit = collide(Vec2 { x: -28_000, y: 0 }, ball_size, pad, pad_size);
    assert_eq!(hit, Some(Collision::Left));
}

#[test]
fn collide_reports_the_struck_top_face() {
    let pad = Vec2 { x: 0, y: 0 };
    let pad_size = Vec2 { x: 30_000, y: 120_000 };
    let ball_size = Vec2 { x: 30_000, y: 30_000 };
    let hit = collide(Vec2 { x: 0, y: 55_000 }, ball_size, pad, pad_size);
    assert_eq!(hit, Some(Collision::Top));
}

#[test]
fn collide_breaks_ties_toward_the_horizontal_axis() {
    let pad = Vec2 { x: 0, y: 0 };
    let pad_size = Vec2 { x: 30_000, y: 120_000 };
    let ball_size = Vec2 { x: 30_000, y: 30_000 };
    // Both penetrations are 10_000 deep; the x-axis face wins the tie.
    let hit = collide(Vec2 { x: -20_000, y: -65_000 }, ball_size, pad, pad_size);
    assert_eq!(hit, Some(Collision::Left));
}

#[test]
fn collide_reports_nothing_without_overlap() {
    let pad = Vec2 { x: 0, y: 0 };
    let pad_size = Vec2 { x: 30_000, y: 120_000 };
    let ball_size = Vec2 { x: 30_000, y: 30_000 };
    assert_eq!(collide(Vec2 { x: 100_000, y: 0 }, ball_size, pad, pad_size), None);
    // Touching edges do not count as overlap.
    assert_eq!(collide(Vec2 { x: 30_000, y: 0 }, ball_size, pad, pad_size), None);
}

#[test]
fn paddle_hit_on_left_face_flips_only_x() {
    let window = window_800_by_600();
    let (_, right) = parked_paddles();
    // Overlap the left paddle's left face, far from every boundary.
    let left = Paddle { side: Side::Left, pos: Vec2 { x: 0, y: 0 } };
    let mut ball = Ball {
        pos: Vec2 { x: -28_000, y: 0 },
        vel: Velocity(Vec2 { x: 928, y: 371 }),
    };
    let mut score = Scoreboard(0, 0);
    let mut pause = PauseFor(0);
    ball_collision_system(&mut ball, &left, &right, &window, &mut score, &mut pause);
    assert_eq!(ball.vel.0.x, -928);
    assert_eq!(ball.vel.0.y, 371);
    assert_eq!(ball.pos, Vec2 { x: -28_000, y: 0 });
    assert_eq!(score, Scoreboard(0, 0));
    assert_eq!(pause, PauseFor(0));
}

#[test]
fn paddle_hit_on_top_face_flips_only_y() {
    let window = window_800_by_600();
    let (_, right) = parked_paddles();
    let left = Paddle { side: Side::Left, pos: Vec2 { x: 0, y: 0 } };
    let mut ball = Ball {
        pos: Vec2 { x: 0, y: 55_000 },
        vel: Velocity(Vec2 { x: 928, y: -371 }),
    };
    let mut score = Scoreboard(0, 0);
    let mut pause = PauseFor(0);
    ball_collision_system(&mut ball, &left, &right, &window, &mut score, &mut pause);
    assert_eq!(ball.vel.0.x, 928);
    assert_eq!(ball.vel.0.y, 371);
    assert_eq!(score, Scoreboard(0, 0));
}

#[test]
fn wall_bounce_flips_only_y() {
    let window = window_800_by_600();
    let (left, right) = parked_paddles();
    // Past the high boundary (285_000), touching no paddle and no goal line.
    let mut ball = Ball {
        pos: Vec2 { x: 10_000, y: 290_000 },
        vel: Velocity(Vec2 { x: 928, y: 371 }),
    };
    let mut score = Scoreboard(3, 4);
    let mut pause = PauseFor(0);
    ball_collision_system(&mut ball, &left, &right, &window, &mut score, &mut pause);
    assert_eq!(ball.vel.0.x, 928);
    assert_eq!(ball.vel.0.y, -371);
    assert_eq!(ball.pos, Vec2 { x: 10_000, y: 290_000 });
    assert_eq!(score, Scoreboard(3, 4));
    assert_eq!(pause, PauseFor(0));
}

#[test]
fn wall_bounce_at_low_boundary_flips_only_y() {
    let window = window_800_by_600();
    let (left, right) = parked_paddles();
    let mut ball = Ball {
        pos: Vec2 { x: -10_000, y: -290_000 },
        vel: Velocity(Vec2 { x: -928, y: -371 }),
    };
    let mut score = Scoreboard(0, 0);
    let mut pause = PauseFor(0);
    ball_collision_system(&mut ball, &left, &right, &window, &mut score, &mut pause);
    assert_eq!(ball.vel.0.x, -928);
    assert_eq!(ball.vel.0.y, 371);
}

#[test]
fn goal_at_left_boundary_scores_for_the_right_player() {
    let window = window_800_by_600();
    let (left, right) = parked_paddles();
    let mut ball = Ball {
        pos: Vec2 { x: -390_000, y: 0 },
        vel: Velocity(Vec2 { x: -1000, y: 0 }),
    };
    let mut score = Scoreboard(0, 0);
    let mut pause = PauseFor(0);
    ball_collision_system(&mut ball, &left, &right, &window, &mut score, &mut pause);
    assert_eq!(score, Scoreboard(0, 1));
    assert_eq!(ball.pos, Vec2 { x: 0, y: 0 });
    assert_eq!(pause, PauseFor(1000));
    assert_eq!(ball.vel, Velocity(Vec2 { x: 928, y: 371 }));
}

#[test]
fn goal_at_right_boundary_scores_for_the_left_player() {
    let window = window_800_by_600();
    let (left, right) = parked_paddles();
    let mut ball = Ball {
        pos: Vec2 { x: 390_000, y: 0 },
        vel: Velocity(Vec2 { x: 1000, y: 0 }),
    };
    let mut score = Scoreboard(0, 0);
    let mut pause = PauseFor(0);
    ball_collision_system(&mut ball, &left, &right, &window, &mut score, &mut pause);
    assert_eq!(score, Scoreboard(1, 0));
    assert_eq!(ball.pos, Vec2 { x: 0, y: 0 });
    assert_eq!(pause, PauseFor(1000));
    assert_eq!(ball.vel, Velocity(Vec2 { x: -928, y: -371 }));
}

#[test]
fn corner_goal_also_takes_the_wall_bounce() {
    let window = window_800_by_600();
    let (left, right) = parked_paddles();
    // Past the left goal line and past the high boundary in the same tick:
    // the goal assigns the serve, then the high-boundary check flips its y.
    let mut ball = Ball {
        pos: Vec2 { x: -390_000, y: 290_000 },
        vel: Velocity(Vec2 { x: -1000, y: 0 }),
    };
    let mut score = Scoreboard(0, 0);
    let mut pause = PauseFor(0);
    ball_collision_system(&mut ball, &left, &right, &window, &mut score, &mut pause);
    assert_eq!(score, Scoreboard(0, 1));
    assert_eq!(ball.pos, Vec2 { x: 0, y: 0 });
    assert_eq!(ball.vel, Velocity(Vec2 { x: 928, y: -371 }));
}

#[test]
fn score_counter_wraps_past_255() {
    let window = window_800_by_600();
    let (left, right) = parked_paddles();
    let mut ball = Ball {
        pos: Vec2 { x: -390_000, y: 0 },
        vel: Velocity(Vec2 { x: -1000, y: 0 }),
    };
    let mut score = Scoreboard(7, 255);
    let mut pause = PauseFor(0);
    ball_collision_system(&mut ball, &left, &right, &window, &mut score, &mut pause);
    assert_eq!(score, Scoreboard(7, 0));
}

#[test]
fn bounce_helper_reverses_the_named_component() {
    let mut vel = Velocity(Vec2 { x: 928, y: 371 });
    apply_bounce(&mut vel, Some(Collision::Right));
    assert_eq!(vel, Velocity(Vec2 { x: -928, y: 371 }));
    apply_bounce(&mut vel, Some(Collision::Bottom));
    assert_eq!(vel, Velocity(Vec2 { x: -928, y: -371 }));
    apply_bounce(&mut vel, None);
    assert_eq!(vel, Velocity(Vec2 { x: -928, y: -371 }));
}
