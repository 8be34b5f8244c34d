use pong::field::{pixels, SERVE_SPREAD_X, SERVE_SPREAD_Y};
use pong::game::{GameState, Inputs};
use pong::score::{find_point, ScoreEvent};
use pong::serve::Serve;
use pong::sign::Sign;
use pong::speed::{BALL_SPEED_INITIAL, PADDLE_SPEED_INITIAL};

#[test]
fn ball_at_right_edge_scores_for_left() {
    let mut game = GameState::new()
        .with_ball_speed(700)
        .unwrap()
        .with_ball(pixels(350), pixels(20), Sign::Positive, Sign::Negative)
        .unwrap();
    assert!(game.can_step(16_667));
    let report = game.step(16_667, Inputs::idle());
    assert_eq!(report.score, Some(ScoreEvent::LeftScored));
    assert_eq!(report.paddle_hit, None);
    assert_eq!(game.left_score(), 1);
    assert_eq!(game.right_score(), 0);
    assert!(-pixels(10) <= game.ball_x() && game.ball_x() <= pixels(10));
    assert!(-pixels(100) <= game.ball_y() && game.ball_y() <= pixels(100));
    assert_eq!(game.ball_speed(), BALL_SPEED_INITIAL);
    assert_eq!(game.paddle_speed(), PADDLE_SPEED_INITIAL);
}

#[test]
fn ball_at_left_edge_scores_for_right() {
    let mut game = GameState::new()
        .with_ball_speed(700)
        .unwrap()
        .with_scores(4, 9)
        .with_ball(pixels(-350), pixels(20), Sign::Negative, Sign::Negative)
        .unwrap();
    assert!(game.can_step(16_667));
    let report = game.step(16_667, Inputs::idle());
    assert_eq!(report.score, Some(ScoreEvent::RightScored));
    assert_eq!(game.left_score(), 4);
    assert_eq!(game.right_score(), 10);
    assert!(-SERVE_SPREAD_X <= game.ball_x() && game.ball_x() <= SERVE_SPREAD_X);
    assert!(-SERVE_SPREAD_Y <= game.ball_y() && game.ball_y() <= SERVE_SPREAD_Y);
    assert_eq!(game.ball_speed(), BALL_SPEED_INITIAL);
    assert_eq!(game.paddle_speed(), PADDLE_SPEED_INITIAL);
}

#[test]
fn point_is_served_as_told() {
    let serve = Serve::new(pixels(-4), pixels(77), Sign::Negative, Sign::Positive).unwrap();
    let mut game = GameState::new().with_ball(pixels(349), 0, Sign::Positive, Sign::Negative).unwrap();
    let report = game.step_with(16_667, Inputs::idle(), serve);
    assert_eq!(report.score, Some(ScoreEvent::LeftScored));
    assert_eq!(game.ball_x(), pixels(-4));
    assert_eq!(game.ball_y(), pixels(77));
    assert_eq!(game.ball_dir_x(), Sign::Negative);
    assert_eq!(game.ball_dir_y(), Sign::Positive);
    assert_eq!(game.left_score(), 1);
}

#[test]
fn ball_short_of_the_edge_scores_nothing() {
    // 451 pixels per second for 1 000 microseconds: 0.451 pixels.
    let start: i64 = pixels(350) - 451 * 1_000 * 9 - 1;
    let mut game = GameState::new()
        .with_paddles(0, pixels(160))
        .unwrap()
        .with_ball(start, pixels(-100), Sign::Positive, Sign::Negative)
        .unwrap();
    let report = game.step_with(1_000, Inputs::idle(), Serve::opening());
    assert_eq!(report.score, None);
    assert_eq!(game.ball_x(), pixels(350) - 1);
    assert_eq!(game.left_score(), 0);
    let report = game.step_with(0, Inputs::idle(), Serve::opening());
    assert_eq!(report.score, None);
    let report = game.step_with(1, Inputs::idle(), Serve::opening());
    assert_eq!(report.score, Some(ScoreEvent::LeftScored));
    assert_eq!(game.left_score(), 1);
    assert_eq!(game.right_score(), 0);
}

#[test]
fn points_are_found_at_the_edges() {
    assert_eq!(find_point(pixels(350)), Some(ScoreEvent::LeftScored));
    assert_eq!(find_point(pixels(350) - 1), None);
    assert_eq!(find_point(pixels(-350)), Some(ScoreEvent::RightScored));
    assert_eq!(find_point(pixels(-350) + 1), None);
    assert_eq!(find_point(0), None);
    assert_eq!(find_point(i64::MAX), Some(ScoreEvent::LeftScored));
    assert_eq!(find_point(i64::MIN), Some(ScoreEvent::RightScored));
}

#[test]
fn upcoming_score_tells_what_step_reports() {
    let game = GameState::new().with_ball(pixels(349), 0, Sign::Positive, Sign::Negative).unwrap();
    assert_eq!(game.upcoming_score(0), None);
    assert_eq!(game.upcoming_score(16_667), Some(ScoreEvent::LeftScored));
    let game = GameState::new().with_ball(pixels(-349), 0, Sign::Negative, Sign::Negative).unwrap();
    assert_eq!(game.upcoming_score(16_667), Some(ScoreEvent::RightScored));
    let game = GameState::new().with_ball(pixels(-349), 0, Sign::Positive, Sign::Negative).unwrap();
    assert_eq!(game.upcoming_score(16_667), None);
}

#[test]
fn full_score_cannot_take_another_point() {
    let full = GameState::new()
        .with_scores(u32::MAX, 7)
        .with_ball(pixels(350), 0, Sign::Positive, Sign::Negative)
        .unwrap();
    assert!(!full.can_step(0));
    let other = GameState::new()
        .with_scores(7, u32::MAX)
        .with_ball(pixels(350), 0, Sign::Positive, Sign::Negative)
        .unwrap();
    assert!(other.can_step(0));
    let quiet = GameState::new().with_scores(u32::MAX, u32::MAX);
    assert!(quiet.can_step(16_667));
    let last = GameState::new()
        .with_scores(u32::MAX - 1, 0)
        .with_ball(pixels(350), 0, Sign::Positive, Sign::Negative)
        .unwrap();
    assert!(last.can_step(0));
    let mut game = last;
    game.step(0, Inputs::idle());
    assert_eq!(game.left_score(), u32::MAX);
}

#[test]
fn try_step_leaves_a_full_score_alone() {
    let full = GameState::new()
        .with_scores(u32::MAX, 7)
        .with_paddles(pixels(20), pixels(-20))
        .unwrap()
        .with_ball(pixels(350), pixels(5), Sign::Positive, Sign::Negative)
        .unwrap();
    let held = Inputs { left_up: true, left_down: false, right_up: false, right_down: true };
    let mut game = full;
    assert_eq!(game.try_step(16_667, held), None);
    assert_eq!(game, full);
    assert_eq!(game.try_step_with(16_667, held, Serve::opening()), None);
    assert_eq!(game, full);
}

#[test]
fn try_step_steps_where_the_score_has_room() {
    let start = GameState::new()
        .with_scores(u32::MAX, 7)
        .with_ball(pixels(-350), pixels(5), Sign::Negative, Sign::Negative)
        .unwrap();
    let serve = Serve::new(pixels(1), pixels(2), Sign::Positive, Sign::Negative).unwrap();
    let mut tried = start;
    let mut stepped = start;
    let report = tried.try_step_with(16_667, Inputs::idle(), serve);
    assert_eq!(report, Some(stepped.step_with(16_667, Inputs::idle(), serve)));
    assert_eq!(report.unwrap().score, Some(ScoreEvent::RightScored));
    assert_eq!(tried, stepped);
    assert_eq!(tried.right_score(), 8);
    assert_eq!(tried.left_score(), u32::MAX);

    let mut game = GameState::new();
    let report = game.try_step(16_667, Inputs::idle()).unwrap();
    assert_eq!(report.score, None);
    assert_eq!(game.ball_x(), 451 * 16_667 * 9);
}

#[test]
fn scores_never_fall_over_a_long_game() {
    let mut game = GameState::new();
    let mut left: u32 = 0;
    let mut right: u32 = 0;
    let mut points: u32 = 0;
    for frame in 0..20_000u32 {
        let inputs = Inputs {
            left_up: frame % 7 < 3,
            left_down: frame % 5 < 2,
            right_up: frame % 11 < 4,
            right_down: frame % 3 < 1,
        };
        assert!(game.can_step(16_667));
        let speed_before = game.ball_speed();
        let report = game.step(16_667, inputs);
        match report.score {
            Some(ScoreEvent::LeftScored) => {
                assert_eq!(game.left_score(), left + 1);
                assert_eq!(game.right_score(), right);
                assert_eq!(game.ball_speed(), BALL_SPEED_INITIAL);
                points += 1;
            }
            Some(ScoreEvent::RightScored) => {
                assert_eq!(game.left_score(), left);
                assert_eq!(game.right_score(), right + 1);
                assert_eq!(game.ball_speed(), BALL_SPEED_INITIAL);
                points += 1;
            }
            None => {
                assert_eq!(game.left_score(), left);
                assert_eq!(game.right_score(), right);
                assert!(game.ball_speed() >= speed_before);
            }
        }
        assert!(game.ball_speed() <= 900);
        assert!(game.left_paddle_y() <= pixels(160) && game.left_paddle_y() >= pixels(-210));
        assert!(game.right_paddle_y() <= pixels(160) && game.right_paddle_y() >= pixels(-210));
        left = game.left_score();
        right = game.right_score();
    }
    assert_eq!(left + right, points);
    assert!(points > 0);
}
