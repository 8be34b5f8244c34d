use pong::field::{pixels, PADDLE_Y_MAX, PADDLE_Y_MIN};
use pong::game::{GameState, Inputs};
use pong::paddle::move_paddle;
use pong::serve::Serve;

fn held(left_up: bool, left_down: bool, right_up: bool, right_down: bool) -> Inputs {
    Inputs { left_up, left_down, right_up, right_down }
}

#[test]
fn paddles_move_by_the_ramped_speed() {
    let mut game = GameState::new();
    game.step_with(0, held(true, false, false, true), Serve::opening());
    assert_eq!(game.left_paddle_y(), 90_200_000);
    assert_eq!(game.right_paddle_y(), -90_200_000);
    game.step_with(0, held(false, true, true, false), Serve::opening());
    assert_eq!(game.left_paddle_y(), 90_200_000 - 90_400_000);
    assert_eq!(game.right_paddle_y(), -90_200_000 + 90_400_000);
}

#[test]
fn up_wins_over_down() {
    let mut game = GameState::new();
    game.step_with(0, held(true, true, true, true), Serve::opening());
    assert_eq!(game.left_paddle_y(), 90_200_000);
    assert_eq!(game.right_paddle_y(), 90_200_000);
}

#[test]
fn idle_paddles_stay() {
    let mut game = GameState::new().with_paddles(pixels(-17), pixels(42)).unwrap();
    game.step_with(16_667, Inputs::idle(), Serve::opening());
    assert_eq!(game.left_paddle_y(), pixels(-17));
    assert_eq!(game.right_paddle_y(), pixels(42));
}

#[test]
fn paddles_stop_at_the_edges_of_the_playfield() {
    let mut game = GameState::new();
    for _ in 0..40 {
        game.step_with(0, held(true, false, false, true), Serve::opening());
        assert!(game.left_paddle_y() <= PADDLE_Y_MAX);
        assert!(game.left_paddle_y() >= PADDLE_Y_MIN);
        assert!(game.right_paddle_y() <= PADDLE_Y_MAX);
        assert!(game.right_paddle_y() >= PADDLE_Y_MIN);
    }
    assert_eq!(game.left_paddle_y(), pixels(160));
    assert_eq!(game.right_paddle_y(), pixels(-210));
    for _ in 0..60 {
        game.step_with(0, held(false, true, true, false), Serve::opening());
    }
    assert_eq!(game.left_paddle_y(), pixels(-210));
    assert_eq!(game.right_paddle_y(), pixels(160));
}

#[test]
fn paddles_move_in_a_frame_that_scores() {
    let mut game = GameState::new()
        .with_ball(pixels(350), 0, pong::sign::Sign::Positive, pong::sign::Sign::Positive)
        .unwrap();
    let report = game.step_with(0, held(true, false, false, true), Serve::opening());
    assert!(report.score.is_some());
    assert_eq!(game.left_paddle_y(), 90_200_000);
    assert_eq!(game.right_paddle_y(), -90_200_000);
}

#[test]
fn move_paddle_clamps_whatever_comes() {
    assert_eq!(move_paddle(0, pixels(10), true, false), pixels(10));
    assert_eq!(move_paddle(0, pixels(10), false, true), pixels(-10));
    assert_eq!(move_paddle(0, pixels(10), true, true), pixels(10));
    assert_eq!(move_paddle(0, pixels(10), false, false), 0);
    assert_eq!(move_paddle(pixels(155), pixels(10), true, false), pixels(160));
    assert_eq!(move_paddle(pixels(-205), pixels(10), false, true), pixels(-210));
    assert_eq!(move_paddle(pixels(150), pixels(10), true, false), pixels(160));
    assert_eq!(move_paddle(i64::MAX, i64::MAX, true, false), PADDLE_Y_MAX);
    assert_eq!(move_paddle(i64::MIN, i64::MAX, false, true), PADDLE_Y_MIN);
    assert_eq!(move_paddle(i64::MAX, 0, false, false), PADDLE_Y_MAX);
    assert_eq!(move_paddle(i64::MIN, 0, false, false), PADDLE_Y_MIN);
    assert_eq!(move_paddle(0, i64::MIN, true, false), PADDLE_Y_MIN);
}
