use pong::field::{PADDLE_Y_MAX, PADDLE_Y_MIN};
use pong::paddle::{move_paddle, Paddle};

#[test]
fn up_key_moves_at_fixed_rate() {
    let mut p = Paddle { y: 0 };
    move_paddle(&mut p, true, false, 1000);
    assert_eq!(p.y, 100);
}

#[test]
fn down_key_moves_at_fixed_rate() {
    let mut p = Paddle { y: 0 };
    move_paddle(&mut p, false, true, 500);
    assert_eq!(p.y, -50);
}

#[test]
fn sub_second_motion_rounds_down() {
    let mut p = Paddle { y: 0 };
    move_paddle(&mut p, true, false, 999);
    assert_eq!(p.y, 99);
}

#[test]
fn no_key_no_motion() {
    let mut p = Paddle { y: 17 };
    move_paddle(&mut p, false, false, 1000);
    assert_eq!(p.y, 17);
}

#[test]
fn clamped_at_top() {
    let mut p = Paddle { y: 280 };
    move_paddle(&mut p, true, false, 1000);
    assert_eq!(p.y, PADDLE_Y_MAX);
}

#[test]
fn clamped_at_bottom() {
    let mut p = Paddle { y: -280 };
    move_paddle(&mut p, false, true, 1000);
    assert_eq!(p.y, PADDLE_Y_MIN);
}

#[test]
fn stays_within_bounds_at_the_edge() {
    let mut p = Paddle { y: PADDLE_Y_MAX };
    move_paddle(&mut p, true, false, 10_000);
    assert_eq!(p.y, PADDLE_Y_MAX);
    move_paddle(&mut p, false, true, 10_000_000);
    assert_eq!(p.y, PADDLE_Y_MIN);
}

#[test]
fn both_keys_cancel_in_the_open_field() {
    let mut p = Paddle { y: 0 };
    move_paddle(&mut p, true, true, 1000);
    assert_eq!(p.y, 0);
}

#[test]
fn zero_elapsed_time_holds_still() {
    let mut p = Paddle { y: 42 };
    move_paddle(&mut p, true, false, 0);
    assert_eq!(p.y, 42);
}
