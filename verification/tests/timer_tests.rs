use pomodoro_timer::timer::{Timer, NANOS_PER_SEC};

const SEC: u128 = NANOS_PER_SEC;

#[test]
fn new_timer_is_idle_with_full_length() {
    let t = Timer::new(1500);
    assert!(t.is_idle());
    assert!(!t.is_running());
    assert_eq!(t.total_time(), 1500);
    assert_eq!(t.remaining_at(0), 1500 * SEC);
    assert_eq!(t.remaining_at(999 * SEC), 1500 * SEC);
    assert_eq!(t.check_time(), 1500 * SEC);
}

#[test]
fn fresh_run_counts_down_exactly() {
    let mut t = Timer::new(60);
    t.start_at(10 * SEC);
    assert!(t.is_running());
    assert!(!t.is_idle());
    assert_eq!(t.remaining_at(10 * SEC), 60 * SEC);
    assert_eq!(t.remaining_at(25 * SEC), 45 * SEC);
    assert_eq!(t.remaining_at(70 * SEC), 0);
    assert_eq!(t.remaining_at(500 * SEC), 0);
}

#[test]
fn clock_before_start_counts_as_no_time() {
    let mut t = Timer::new(60);
    t.start_at(10 * SEC);
    assert_eq!(t.remaining_at(5 * SEC), 60 * SEC);
}

#[test]
fn pause_freezes_the_time_left() {
    let mut t = Timer::new(60);
    t.start_at(0);
    t.pause_at(20 * SEC);
    assert!(!t.is_running());
    assert!(!t.is_idle());
    assert_eq!(t.remaining_at(20 * SEC), 40 * SEC);
    assert_eq!(t.remaining_at(1000 * SEC), 40 * SEC);
}

#[test]
fn resume_keeps_the_time_left() {
    let mut t = Timer::new(60);
    t.start_at(0);
    t.pause_at(20 * SEC);
    t.start_at(100 * SEC);
    assert!(t.is_running());
    assert_eq!(t.remaining_at(100 * SEC), 40 * SEC);
    assert_eq!(t.remaining_at(110 * SEC), 30 * SEC);
    assert_eq!(t.remaining_at(140 * SEC), 0);
}

#[test]
fn reset_restores_full_length() {
    let mut t = Timer::new(300);
    t.start_at(0);
    t.pause_at(100 * SEC);
    t.reset_at(200 * SEC);
    assert!(t.is_idle());
    assert_eq!(t.remaining_at(10_000 * SEC), 300 * SEC);
    t.start_at(500 * SEC);
    assert_eq!(t.remaining_at(501 * SEC), 299 * SEC);
}

#[test]
fn pausing_an_idle_timer_counts_from_its_creation() {
    // An idle timer's start is its creation reading (0 here).
    let mut t = Timer::new(60);
    t.pause_at(15 * SEC);
    assert_eq!(t.remaining_at(99 * SEC), 45 * SEC);
}

#[test]
fn resume_saturates_instead_of_overflowing() {
    let mut t = Timer::new(1);
    t.start_at(u128::MAX - 5);
    t.pause_at(0);
    t.start_at(u128::MAX);
    assert_eq!(t.remaining_at(u128::MAX), SEC);
}

#[test]
fn clock_advances_and_check_time_stays_in_range() {
    let mut t = Timer::new(2);
    let a = t.now();
    let mut b = a;
    for _ in 0..50_000_000u64 {
        b = t.now();
        if b > a {
            break;
        }
    }
    assert!(b > a);
    t.start();
    assert!(t.is_running());
    let r = t.check_time();
    assert!(r <= 2 * SEC);
    assert!(r > 0);
    t.pause();
    assert!(!t.is_running());
    let frozen = t.check_time();
    assert_eq!(t.check_time(), frozen);
    t.reset();
    assert!(t.is_idle());
    assert_eq!(t.check_time(), 2 * SEC);
}

#[test]
fn running_timer_never_gains_time() {
    let mut t = Timer::new(10);
    t.start_at(3 * SEC);
    let mut last = t.remaining_at(0);
    for now in (0..20u128).map(|k| k * SEC / 2) {
        let r = t.remaining_at(now);
        assert!(r <= last);
        assert!(r <= 10 * SEC);
        last = r;
    }
}
