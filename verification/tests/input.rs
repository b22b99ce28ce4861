use block_breaker::input::{movement, Input, PADDLE_SPEED};

#[test]
fn paddle_moves_five_units_a_tick() {
    assert_eq!(PADDLE_SPEED, 5);
    assert_eq!(movement(&Input { left: true, right: false }), Some(-5));
    assert_eq!(movement(&Input { left: false, right: true }), Some(5));
}

#[test]
fn left_wins_over_right() {
    assert_eq!(movement(&Input { left: true, right: true }), Some(-5));
}

#[test]
fn with_no_key_held_the_paddle_is_told_nothing() {
    assert_eq!(movement(&Input { left: false, right: false }), None);
}
