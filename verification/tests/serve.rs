use pong::field::{pixels, SERVE_SPREAD_X, SERVE_SPREAD_Y};
use pong::serve::Serve;
use pong::sign::Sign;

#[test]
fn serve_is_taken_from_the_serving_area_only() {
    assert!(Serve::new(pixels(10), pixels(100), Sign::Positive, Sign::Positive).is_some());
    assert!(Serve::new(pixels(-10), pixels(-100), Sign::Negative, Sign::Negative).is_some());
    assert!(Serve::new(pixels(10) + 1, 0, Sign::Positive, Sign::Positive).is_none());
    assert!(Serve::new(pixels(-10) - 1, 0, Sign::Positive, Sign::Positive).is_none());
    assert!(Serve::new(0, pixels(100) + 1, Sign::Positive, Sign::Positive).is_none());
    assert!(Serve::new(0, pixels(-100) - 1, Sign::Positive, Sign::Positive).is_none());
    assert!(Serve::new(i64::MIN, i64::MAX, Sign::Positive, Sign::Positive).is_none());
}

#[test]
fn serve_keeps_what_it_was_given() {
    let serve = Serve::new(pixels(3), pixels(-42), Sign::Negative, Sign::Positive).unwrap();
    assert_eq!(serve.x(), pixels(3));
    assert_eq!(serve.y(), pixels(-42));
    assert_eq!(serve.dir_x(), Sign::Negative);
    assert_eq!(serve.dir_y(), Sign::Positive);
}

#[test]
fn opening_serve_is_from_the_origin() {
    let serve = Serve::opening();
    assert_eq!(serve.x(), 0);
    assert_eq!(serve.y(), 0);
    assert_eq!(serve.dir_x(), Sign::Positive);
    assert_eq!(serve.dir_y(), Sign::Positive);
}

#[test]
fn random_serves_stay_in_the_serving_area() {
    for _ in 0..2_000 {
        let serve = Serve::random();
        assert!(-SERVE_SPREAD_X <= serve.x() && serve.x() <= SERVE_SPREAD_X);
        assert!(-SERVE_SPREAD_Y <= serve.y() && serve.y() <= SERVE_SPREAD_Y);
    }
}

#[test]
fn random_serves_differ() {
    let first = Serve::random();
    let mut other_x = false;
    let mut other_y = false;
    let mut lowest_x = true;
    let mut lowest_y = true;
    let mut highest_x = true;
    let mut highest_y = true;
    for _ in 0..200 {
        let serve = Serve::random();
        other_x = other_x || serve.x() != first.x();
        other_y = other_y || serve.y() != first.y();
        lowest_x = lowest_x && serve.x() == -SERVE_SPREAD_X;
        lowest_y = lowest_y && serve.y() == -SERVE_SPREAD_Y;
        highest_x = highest_x && serve.x() == SERVE_SPREAD_X;
        highest_y = highest_y && serve.y() == SERVE_SPREAD_Y;
    }
    assert!(other_x && other_y);
    assert!(!lowest_x && !lowest_y && !highest_x && !highest_y);
}

#[test]
fn random_serves_go_every_way() {
    let mut seen = [false; 4];
    for _ in 0..400 {
        let serve = Serve::random();
        let right = serve.dir_x() == Sign::Positive;
        let up = serve.dir_y() == Sign::Positive;
        seen[usize::from(right) * 2 + usize::from(up)] = true;
    }
    assert_eq!(seen, [true; 4]);
}
