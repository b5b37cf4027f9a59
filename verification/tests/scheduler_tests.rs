use reaping::scheduler::Scheduler;

const MS: u64 = 1_000_000;

fn fresh(now: u64) -> Scheduler {
    // Input at 30 Hz, simulation and render at 60 Hz, stats once a second.
    Scheduler::new(1_000_000_000 / 30, 1_000_000_000 / 60, 1_000_000_000 / 60, 1_000_000_000, now)
}

#[test]
fn sample_feeds_the_same_interval_to_all_timers() {
    let mut s = fresh(1000);
    let dt = s.sample(1000 + 20 * MS);
    assert_eq!(dt, 20 * MS);
    // 20 ms springs the two 60 Hz timers (16.6 ms) but not the 30 Hz
    // input timer (33.3 ms) nor the 1 s stats timer.
    assert!(!s.input_sprung());
    assert!(s.logic_sprung());
    assert!(s.render_sprung());
    assert!(!s.fps_sprung());
}

#[test]
fn acknowledging_keeps_the_overshoot() {
    let mut s = fresh(0);
    s.sample(40 * MS);
    assert!(s.input_sprung());
    s.acknowledge_input();
    assert!(!s.input_sprung());
    // 40 ms against a 33.3 ms period leaves 6.6 ms: another 27 ms springs
    // it again, which a zeroing reset would have missed.
    s.sample(67 * MS);
    assert!(s.input_sprung());
}

#[test]
fn frame_rate_publishes_and_zeroes_the_counter() {
    let mut s = fresh(0);
    s.sample(17 * MS);
    assert!(s.render_sprung());
    s.acknowledge_render();
    s.sample(34 * MS);
    assert!(s.render_sprung());
    s.acknowledge_render();
    s.sample(1001 * MS);
    assert!(s.fps_sprung());
    s.publish_frame_rate();
    assert_eq!(s.frame_rate(), 2);
    // No frame was acknowledged since: the next publication reads zero.
    s.sample(2002 * MS);
    assert!(s.fps_sprung());
    s.publish_frame_rate();
    assert_eq!(s.frame_rate(), 0);
}

#[test]
fn sleep_is_the_tightest_remainder_net_of_work() {
    let mut s = fresh(0);
    s.sample(10 * MS);
    // Tightest timer: 60 Hz at 16.666 ms, 6.666 ms left after the sample;
    // 2 ms of work since the sample leaves 4.666 ms of sleep.
    let logic_remainder = 1_000_000_000 / 60 - 10 * MS;
    assert_eq!(s.sleep_duration(12 * MS), logic_remainder - 2 * MS);
}

#[test]
fn sleep_clamps_at_zero_when_work_overran() {
    let mut s = fresh(0);
    s.sample(10 * MS);
    assert_eq!(s.sleep_duration(300 * MS), 0);
}

#[test]
fn sleep_is_zero_once_a_timer_is_sprung() {
    let mut s = fresh(0);
    s.sample(17 * MS);
    assert!(s.render_sprung());
    assert_eq!(s.sleep_duration(17 * MS), 0);
}
