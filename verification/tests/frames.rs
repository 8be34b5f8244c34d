use pong::clamp::clamp;
use pong::frame::{frame_length, MAX_FRAME_MICROS};
use pong::game::{GameState, Inputs};
use pong::serve::Serve;

#[test]
fn frame_length_is_the_time_where_it_fits() {
    assert_eq!(frame_length(0), 0);
    assert_eq!(frame_length(1), 1);
    assert_eq!(frame_length(16_667), 16_667);
    assert_eq!(frame_length(u32::MAX as i128), u32::MAX);
    assert_eq!(MAX_FRAME_MICROS, u32::MAX);
}

#[test]
fn time_running_backward_counts_as_none() {
    assert_eq!(frame_length(-1), 0);
    assert_eq!(frame_length(-16_667), 0);
    assert_eq!(frame_length(i128::MIN), 0);
}

#[test]
fn time_too_long_counts_as_the_longest_frame() {
    assert_eq!(frame_length(u32::MAX as i128 + 1), u32::MAX);
    assert_eq!(frame_length(u64::MAX as i128), u32::MAX);
    assert_eq!(frame_length(i128::MAX), u32::MAX);
}

#[test]
fn backward_time_moves_nothing() {
    let mut game = GameState::new();
    game.step_with(frame_length(-5_000), Inputs::idle(), Serve::opening());
    assert_eq!(game.ball_x(), 0);
    assert_eq!(game.ball_y(), 0);
}

#[test]
fn clamp_brings_into_range() {
    assert_eq!(clamp(5, 0, 10), 5);
    assert_eq!(clamp(0, 0, 10), 0);
    assert_eq!(clamp(10, 0, 10), 10);
    assert_eq!(clamp(-1, 0, 10), 0);
    assert_eq!(clamp(11, 0, 10), 10);
    assert_eq!(clamp(i128::MAX, i64::MIN, i64::MAX), i64::MAX);
    assert_eq!(clamp(i128::MIN, i64::MIN, i64::MAX), i64::MIN);
    assert_eq!(clamp(-7, -7, -7), -7);
    assert_eq!(clamp(100, -7, -7), -7);
}
