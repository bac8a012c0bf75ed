use sleek::throttle::{Throttle, MIN_TIME_BETWEEN_UPDATES};

#[test]
fn interval_is_half_a_frame_at_sixty_hertz() {
    assert_eq!(MIN_TIME_BETWEEN_UPDATES, 8_333_333);
    assert_eq!(Throttle::for_rate(0, 60).min_interval, 8_333_333);
}

#[test]
fn close_requests_yield_one_redraw() {
    let mut t = Throttle::for_rate(0, 60);
    let first = 10_000_000u64;
    assert!(t.allow_redraw(first));
    t.accept(first);
    assert!(!t.allow_redraw(first + 4_000_000));
    assert!(!t.allow_redraw(first + MIN_TIME_BETWEEN_UPDATES));
}

#[test]
fn spaced_requests_are_both_accepted() {
    let mut t = Throttle::for_rate(0, 60);
    let first = 10_000_000u64;
    assert!(t.allow_redraw(first));
    t.accept(first);
    let second = first + MIN_TIME_BETWEEN_UPDATES + 1;
    assert!(t.allow_redraw(second));
    t.accept(second);
    assert_eq!(t.last_accepted, second);
}

#[test]
fn refused_request_does_not_move_the_gate() {
    let t = Throttle::new(100, 50);
    assert!(!t.allow_redraw(150));
    assert!(!t.allow_redraw(20));
    assert_eq!(t.last_accepted, 100);
    assert!(t.allow_redraw(151));
}
