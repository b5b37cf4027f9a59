use reaping::timer::Timer;

#[test]
fn fresh_timer_is_not_sprung() {
    let t = Timer::new(10);
    assert!(!t.sprung());
    assert_eq!(t.remainder(), 10);
}

#[test]
fn springs_exactly_at_the_period() {
    let mut t = Timer::new(10);
    t.elapsed(9);
    assert!(!t.sprung());
    assert_eq!(t.remainder(), 1);
    t.elapsed(1);
    assert!(t.sprung());
    assert_eq!(t.remainder(), 0);
}

#[test]
fn reset_with_overflow_keeps_the_overshoot() {
    let mut t = Timer::new(10);
    t.elapsed(13);
    assert!(t.sprung());
    t.reset_with_overflow();
    assert!(!t.sprung());
    assert_eq!(t.remainder(), 7);
}

#[test]
fn reset_discards_the_phase() {
    let mut t = Timer::new(10);
    t.elapsed(13);
    t.reset();
    assert!(!t.sprung());
    assert_eq!(t.remainder(), 10);
}

#[test]
fn drain_counts_whole_periods_and_keeps_the_rest() {
    let mut t = Timer::new(10);
    t.elapsed(35);
    assert_eq!(t.drain(), 3);
    assert!(!t.sprung());
    assert_eq!(t.remainder(), 5);
}

#[test]
fn irregular_elapsed_calls_lose_no_time() {
    // 7 + 1 + 25 + 2 = 35 nanoseconds against a period of 10: however the
    // time arrives, draining observes 3 springs and leaves 35 mod 10.
    let mut t = Timer::new(10);
    t.elapsed(7);
    t.elapsed(1);
    t.elapsed(25);
    t.elapsed(2);
    assert_eq!(t.drain(), 3);
    assert_eq!(t.remainder(), 5);
}

#[test]
fn drain_on_an_unsprung_timer_observes_nothing() {
    let mut t = Timer::new(100);
    t.elapsed(99);
    assert_eq!(t.drain(), 0);
    assert_eq!(t.remainder(), 1);
}

#[test]
fn exact_multiple_drains_to_zero() {
    let mut t = Timer::new(10);
    t.elapsed(30);
    assert_eq!(t.drain(), 3);
    assert_eq!(t.remainder(), 10);
}
