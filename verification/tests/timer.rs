use farmfun::timer::{Timer, TimerMode, NANOS_PER_SECOND};

const SECOND: u64 = 1_000_000_000;

#[test]
fn a_second_is_a_billion_nanoseconds() {
    assert_eq!(NANOS_PER_SECOND, 1_000_000_000);
}

#[test]
fn new_timer_has_not_run() {
    let timer = Timer::new(10 * SECOND, TimerMode::Once);
    assert_eq!(
        timer,
        Timer { duration: 10 * SECOND, elapsed: 0, mode: TimerMode::Once, finished: false }
    );
    assert_eq!(timer.remaining(), 10 * SECOND);
}

#[test]
fn once_timer_counts_stops_and_stays() {
    let mut timer = Timer::new(10 * SECOND, TimerMode::Once);
    timer.tick(SECOND / 4);
    assert_eq!(timer.elapsed, 250_000_000);
    assert_eq!(timer.duration, 10 * SECOND);
    assert!(!timer.finished);
    assert_eq!(timer.mode, TimerMode::Once);
    assert_eq!(timer.remaining(), 9_750_000_000);

    timer.tick(500 * SECOND);
    assert_eq!(timer.elapsed, 10 * SECOND);
    assert!(timer.finished);
    assert_eq!(timer.remaining(), 0);

    timer.tick(SECOND);
    assert_eq!(timer.elapsed, 10 * SECOND);
    assert!(timer.finished);
}

#[test]
fn once_timer_finishes_on_the_exact_nanosecond() {
    let mut timer = Timer::new(25 * SECOND, TimerMode::Once);
    timer.tick(25 * SECOND - 1);
    assert!(!timer.finished);
    assert_eq!(timer.remaining(), 1);
    timer.tick(1);
    assert!(timer.finished);
    assert_eq!(timer.elapsed, 25 * SECOND);
}

#[test]
fn once_timer_ignores_how_the_time_is_cut() {
    let cuts: [&[u64]; 4] = [
        &[25 * SECOND],
        &[10 * SECOND, 10 * SECOND, 5 * SECOND],
        &[1, 25 * SECOND - 2, 1],
        &[0, 0, 25 * SECOND, 0],
    ];
    for cut in cuts {
        let mut timer = Timer::new(25 * SECOND, TimerMode::Once);
        for (i, delta) in cut.iter().enumerate() {
            let before: u64 = cut[..i].iter().sum();
            assert_eq!(timer.finished, i > 0 && before >= 25 * SECOND);
            timer.tick(*delta);
        }
        assert!(timer.finished);
        assert_eq!(timer.elapsed, 25 * SECOND);
    }
}

#[test]
fn tick_of_nothing_leaves_a_running_timer_alone() {
    let mut timer = Timer::new(3 * SECOND, TimerMode::Once);
    timer.tick(SECOND);
    let before = timer;
    timer.tick(0);
    assert_eq!(timer, before);
}

#[test]
fn huge_tick_does_not_wrap() {
    let mut timer = Timer::new(u64::MAX, TimerMode::Once);
    timer.tick(u64::MAX - 1);
    assert!(!timer.finished);
    assert_eq!(timer.elapsed, u64::MAX - 1);
    timer.tick(u64::MAX);
    assert!(timer.finished);
    assert_eq!(timer.elapsed, u64::MAX);

    let mut timer = Timer::new(7, TimerMode::Repeating);
    timer.tick(5);
    timer.tick(u64::MAX);
    assert!(timer.finished);
    // 5 + (2^64 - 1) = 2^64 + 4, and 2^64 leaves 2 when divided by 7.
    assert_eq!(timer.elapsed, 6);
}

#[test]
fn repeating_timer_wraps_and_fires_for_one_tick() {
    let mut timer = Timer::new(2 * SECOND, TimerMode::Repeating);
    timer.tick(750_000_000);
    assert_eq!(timer.elapsed, 750_000_000);
    assert!(!timer.finished);
    assert_eq!(timer.mode, TimerMode::Repeating);

    timer.tick(1_500_000_000);
    assert_eq!(timer.elapsed, 250_000_000);
    assert!(timer.finished);

    timer.tick(SECOND);
    assert_eq!(timer.elapsed, 1_250_000_000);
    assert!(!timer.finished);
}

#[test]
fn repeating_timer_keeps_the_remainder_over_several_periods() {
    let mut timer = Timer::new(SECOND, TimerMode::Repeating);
    timer.tick(3_500_000_000);
    assert!(timer.finished);
    assert_eq!(timer.elapsed, 500_000_000);

    timer.tick(500_000_000);
    assert!(timer.finished);
    assert_eq!(timer.elapsed, 0);
}

#[test]
fn timer_of_no_duration_finishes_on_its_first_tick() {
    let mut once = Timer::new(0, TimerMode::Once);
    assert!(!once.finished);
    once.tick(0);
    assert!(once.finished);
    assert_eq!(once.elapsed, 0);

    let mut repeating = Timer::new(0, TimerMode::Repeating);
    repeating.tick(12);
    assert!(repeating.finished);
    assert_eq!(repeating.elapsed, 0);
}

#[test]
fn reset_starts_the_count_over() {
    let mut timer = Timer::new(5 * SECOND, TimerMode::Once);
    timer.tick(9 * SECOND);
    assert!(timer.finished);
    timer.reset();
    assert_eq!(timer, Timer::new(5 * SECOND, TimerMode::Once));
    timer.tick(SECOND);
    assert_eq!(timer.elapsed, SECOND);
    assert!(!timer.finished);
}

#[test]
fn remaining_of_a_timer_set_past_its_duration_is_nothing() {
    let timer = Timer { duration: 5, elapsed: 9, mode: TimerMode::Once, finished: false };
    assert_eq!(timer.remaining(), 0);
    let mut timer = timer;
    timer.tick(0);
    assert!(timer.finished);
    assert_eq!(timer.elapsed, 5);
}
