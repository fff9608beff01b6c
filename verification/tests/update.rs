// Frame-update scenarios. All values are fixed-point (hundredths of a
// pixel): the window is 64000 x 48000, paddles are 1600 x 9600 and the ball
// 1600 x 3200 unless a test says otherwise.

use pong::game::{GameState, Keys};
use pong::geometry::Vec2;

fn make() -> GameState {
    GameState::new(1600, 9600, 1600, 9600, 1600, 3200)
}

fn no_keys() -> Keys {
    Keys::none()
}

fn keys(p1_up: bool, p1_down: bool, p2_up: bool, p2_down: bool) -> Keys {
    Keys { player1_up: p1_up, player1_down: p1_down, player2_up: p2_up, player2_down: p2_down }
}

#[test]
fn initial_layout_is_centred() {
    let s = make();
    assert_eq!(s.player1.position, Vec2::new(1600, 19200));
    assert_eq!(s.player2.position, Vec2::new(60800, 19200));
    assert_eq!(s.ball.position, Vec2::new(31200, 22400));
    assert_eq!(s.ball.velocity, Vec2::new(-500, 0));
    assert_eq!(s.player1.velocity, Vec2::new(0, 0));
    assert_eq!(s.player2.velocity, Vec2::new(0, 0));
}

#[test]
fn update_without_contact_moves_ball_only() {
    let mut s = make();
    s.update(no_keys());
    assert_eq!(s.ball.position, Vec2::new(30700, 22400));
    assert_eq!(s.ball.velocity, Vec2::new(-500, 0));
    assert_eq!(s.player1.position, Vec2::new(1600, 19200));
    assert_eq!(s.player2.position, Vec2::new(60800, 19200));
}

#[test]
fn left_exit_resets_ball_and_paddles() {
    let mut s = make();
    s.ball.position = Vec2::new(-100, 22400);
    s.player1.position = Vec2::new(1600, 0);
    s.player2.position = Vec2::new(60800, 30000);
    s.update(no_keys());
    assert_eq!(s.ball.position, Vec2::new(31200, 22400));
    assert_eq!(s.ball.velocity, Vec2::new(-500, 0));
    assert_eq!(s.player1.position, Vec2::new(1600, 19200));
    assert_eq!(s.player2.position, Vec2::new(60800, 19200));
}

#[test]
fn right_exit_also_restarts_ball_leftward() {
    let mut s = make();
    s.ball.position = Vec2::new(63900, 22400);
    s.ball.velocity = Vec2::new(500, 0);
    s.update(no_keys());
    assert_eq!(s.ball.position, Vec2::new(31200, 22400));
    assert_eq!(s.ball.velocity, Vec2::new(-500, 0));
    assert_eq!(s.player1.position, Vec2::new(1600, 19200));
    assert_eq!(s.player2.position, Vec2::new(60800, 19200));
}

#[test]
fn ball_exactly_on_left_edge_does_not_reset() {
    let mut s = make();
    s.ball.position = Vec2::new(500, 22400);
    s.update(no_keys());
    assert_eq!(s.ball.position, Vec2::new(0, 22400));
    assert_eq!(s.ball.velocity, Vec2::new(-500, 0));
}

#[test]
fn ball_exactly_on_right_edge_does_not_reset() {
    let mut s = make();
    s.ball.position = Vec2::new(63500, 22400);
    s.ball.velocity = Vec2::new(500, 0);
    s.update(no_keys());
    assert_eq!(s.ball.position, Vec2::new(64000, 22400));
    assert_eq!(s.ball.velocity, Vec2::new(500, 0));
}

#[test]
fn held_keys_move_the_paddles() {
    let mut s = make();
    s.update(keys(true, false, false, true));
    assert_eq!(s.player1.position, Vec2::new(1600, 18400));
    assert_eq!(s.player2.position, Vec2::new(60800, 20000));
}

#[test]
fn both_keys_cancel_out() {
    let mut s = make();
    s.update(keys(true, true, false, false));
    assert_eq!(s.player1.position, Vec2::new(1600, 19200));
}

#[test]
fn paddle_resting_on_top_edge_does_not_move_up() {
    let mut s = make();
    s.player1.position = Vec2::new(1600, 0);
    s.update(keys(true, false, false, false));
    assert_eq!(s.player1.position, Vec2::new(1600, 0));
}

#[test]
fn paddle_just_below_top_edge_overshoots_by_less_than_one_step() {
    let mut s = make();
    s.player1.position = Vec2::new(1600, 100);
    s.update(keys(true, false, false, false));
    assert_eq!(s.player1.position, Vec2::new(1600, -700));
}

#[test]
fn paddle_resting_on_bottom_edge_does_not_move_down() {
    let mut s = make();
    s.player2.position = Vec2::new(60800, 38400);
    s.update(keys(false, false, false, true));
    assert_eq!(s.player2.position, Vec2::new(60800, 38400));
}

#[test]
fn paddle_just_above_bottom_edge_overshoots_by_less_than_one_step() {
    let mut s = make();
    s.player2.position = Vec2::new(60800, 38300);
    s.update(keys(false, false, false, true));
    assert_eq!(s.player2.position, Vec2::new(60800, 39100));
}

#[test]
fn top_wall_reflects_vertical_velocity() {
    let mut s = make();
    s.ball.position = Vec2::new(31200, 100);
    s.ball.velocity = Vec2::new(-500, -300);
    s.update(no_keys());
    assert_eq!(s.ball.position, Vec2::new(30700, -200));
    assert_eq!(s.ball.velocity, Vec2::new(-500, 300));
}

#[test]
fn bottom_wall_reflects_vertical_velocity() {
    let mut s = make();
    s.ball.position = Vec2::new(31200, 44800);
    s.ball.velocity = Vec2::new(-500, 300);
    s.update(no_keys());
    assert_eq!(s.ball.position, Vec2::new(30700, 45100));
    assert_eq!(s.ball.velocity, Vec2::new(-500, -300));
}

#[test]
fn paddle_hit_speeds_up_reverses_and_spins() {
    let mut s = make();
    s.ball.position = Vec2::new(3500, 20000);
    s.update(no_keys());
    assert_eq!(s.ball.position, Vec2::new(3000, 20000));
    // Speed grows from 500 to 505 and reverses; the ball struck 2400 units
    // above the paddle centre, so the spin pushes it upward: 400 * 2400
    // / 9600 = 100.
    assert_eq!(s.ball.velocity, Vec2::new(505, -100));
}

#[test]
fn hit_at_paddle_centre_adds_no_spin() {
    let mut s = make();
    s.ball.position = Vec2::new(3500, 22400);
    s.update(no_keys());
    assert_eq!(s.ball.velocity, Vec2::new(505, 0));
}

#[test]
fn tiny_offset_spin_truncates_to_zero() {
    let mut s = make();
    s.ball.position = Vec2::new(3500, 22410);
    s.update(no_keys());
    assert_eq!(s.ball.velocity, Vec2::new(505, 0));
}

#[test]
fn resting_ball_is_hit_as_if_moving_right() {
    let mut s = make();
    s.ball.position = Vec2::new(2000, 22400);
    s.ball.velocity = Vec2::new(0, 0);
    s.update(no_keys());
    assert_eq!(s.ball.velocity, Vec2::new(-5, 0));
}

#[test]
fn right_paddle_hit_takes_spin_from_left_paddle() {
    // Paddles of different heights, both vertically centred: a hit on the
    // right paddle divides the spin by the LEFT paddle's height (9600, not
    // 4800), since every hit is attributed to the left paddle.
    let mut s = GameState::new(1600, 9600, 1600, 4800, 1600, 3200);
    s.ball.position = Vec2::new(60000, 25200);
    s.ball.velocity = Vec2::new(500, 0);
    s.update(no_keys());
    assert_eq!(s.ball.position, Vec2::new(60500, 25200));
    // diff = 24000 - 26800 = -2800; 400 * 2800 / 9600 = 116 (truncated).
    assert_eq!(s.ball.velocity, Vec2::new(-505, 116));
}
