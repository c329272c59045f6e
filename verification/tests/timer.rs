use tetris::timer::{DropTimer, FallSchedule};

#[test]
fn a_new_timer_has_nothing_elapsed() {
    let t = DropTimer::new(1000);
    assert_eq!(t, DropTimer { interval: 1000, elapsed: 0 });
}

#[test]
fn a_timer_completes_when_its_interval_has_elapsed() {
    let mut t = DropTimer::new(1000);
    assert!(!t.tick(400));
    assert_eq!(t.elapsed, 400);
    assert!(!t.tick(599));
    assert_eq!(t.elapsed, 999);
    assert!(t.tick(1));
    assert_eq!(t.elapsed, 0);
    assert!(!t.tick(999));
    assert!(t.tick(2));
    assert_eq!(t.elapsed, 1);
    assert_eq!(t.interval, 1000);
}

#[test]
fn a_long_tick_keeps_what_is_left_of_the_last_interval() {
    let mut t = DropTimer::new(1000);
    assert!(t.tick(3500));
    assert_eq!(t.elapsed, 500);
    assert!(!t.tick(0));
    assert_eq!(t.elapsed, 500);
}

#[test]
fn reset_starts_the_interval_again() {
    let mut t = DropTimer::new(1000);
    t.tick(900);
    t.reset();
    assert_eq!(t, DropTimer { interval: 1000, elapsed: 0 });
    assert!(!t.tick(900));
    assert!(t.tick(100));
}

#[test]
fn an_armed_timer_completes_at_the_next_tick() {
    let mut t = DropTimer::new(1000);
    t.tick(10);
    t.arm(793);
    assert_eq!(t, DropTimer { interval: 793, elapsed: 793 });
    assert!(t.tick(0));
    assert_eq!(t.elapsed, 0);
    assert!(!t.tick(792));
    t.arm(500);
    assert!(t.tick(16));
    assert_eq!(t.elapsed, 16);
}

#[test]
fn a_timer_without_interval_completes_at_every_tick() {
    let mut t = DropTimer::new(0);
    assert!(t.tick(0));
    assert!(t.tick(5));
    assert_eq!(t, DropTimer { interval: 0, elapsed: 0 });
}

#[test]
fn large_times_do_not_overflow() {
    let mut t = DropTimer { interval: u64::MAX, elapsed: u64::MAX - 1 };
    assert!(t.tick(u64::MAX));
    assert_eq!(t.elapsed, u64::MAX - 1);
    let mut t = DropTimer { interval: 10, elapsed: u64::MAX };
    assert!(t.tick(u64::MAX));
    // twice the largest number leaves 0 when divided by ten
    assert_eq!(t.elapsed, 0);
}

#[test]
fn a_schedule_has_one_interval_for_each_level() {
    assert!(FallSchedule::new(vec![]).is_none());
    assert!(FallSchedule::new(vec![1000; 19]).is_none());
    assert!(FallSchedule::new(vec![1000; 21]).is_none());
    let intervals: Vec<u64> = (1..=20).map(|level| 2000 - 50 * level).collect();
    let schedule = FallSchedule::new(intervals).unwrap();
    assert_eq!(schedule.interval(1), Some(1950));
    assert_eq!(schedule.interval(2), Some(1900));
    assert_eq!(schedule.interval(20), Some(1000));
    assert_eq!(schedule.interval(0), None);
    assert_eq!(schedule.interval(21), None);
}

#[test]
fn a_uniform_schedule() {
    let schedule = FallSchedule::uniform(750);
    for level in 1..=20 {
        assert_eq!(schedule.interval(level), Some(750));
    }
    assert_eq!(schedule.interval(0), None);
    assert_eq!(schedule.interval(21), None);
}
