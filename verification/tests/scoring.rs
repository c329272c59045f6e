use tetris::session::{FallSpeed, Phase, Session, LINES_PER_LEVEL, MAX_LEVEL};

fn at_level(level: u32, lines_cleared: u32) -> Session {
    Session { level, lines_cleared, ..Session::new() }
}

#[test]
fn a_new_session() {
    let s = Session::new();
    assert_eq!(s.score, 0);
    assert_eq!(s.level, 1);
    assert_eq!(s.lines_cleared, 0);
    assert_eq!(s.drop_rows, 0);
    assert!(s.awaiting_spawn);
    assert!(s.active);
    assert!(!s.forced_fall);
    assert!(!s.game_over);
    assert!(s.is_valid());
    assert_eq!(s.current_phase(), Phase::Spawning);
    assert_eq!(MAX_LEVEL, 20);
    assert_eq!(LINES_PER_LEVEL, 10);
}

#[test]
fn one_row_at_level_one_scores_one_hundred() {
    let mut s = Session::new();
    assert!(!s.score_rows(1));
    assert_eq!(s.score, 100);
    assert_eq!(s.level, 1);
    assert_eq!(s.lines_cleared, 1);
}

#[test]
fn four_rows_at_level_three_score_twenty_four_hundred() {
    let mut s = at_level(3, 0);
    assert!(!s.score_rows(4));
    assert_eq!(s.score, 2400);
    assert_eq!(s.level, 3);
    assert_eq!(s.lines_cleared, 4);
}

#[test]
fn five_rows_at_level_one_score_fifteen_hundred() {
    let mut s = Session::new();
    assert!(!s.score_rows(5));
    assert_eq!(s.score, 1500);
    assert_eq!(s.lines_cleared, 5);
}

#[test]
fn two_and_three_rows() {
    let mut s = at_level(2, 0);
    s.score_rows(2);
    assert_eq!(s.score, 600);
    s.score_rows(3);
    assert_eq!(s.score, 600 + 1000);
    assert_eq!(s.lines_cleared, 5);
    assert_eq!(s.level, 2);
}

#[test]
fn no_rows_change_nothing() {
    let mut s = at_level(4, 39);
    let before = s;
    assert!(!s.score_rows(0));
    assert_eq!(s, before);
}

#[test]
fn the_tenth_row_at_level_one_completes_the_level() {
    let mut s = at_level(1, 9);
    assert!(s.score_rows(1));
    assert_eq!(s.level, 2);
    assert_eq!(s.lines_cleared, 0);
    assert_eq!(s.score, 100);
    let speed = FallSpeed::at_level(s.level).unwrap();
    assert_eq!(speed, FallSpeed { base_permille: 793, exponent: 1 });
    let multiplier = (speed.base_permille as f32 / 1000.0).powf(speed.exponent as f32);
    assert_eq!(multiplier, 0.793);
}

#[test]
fn what_goes_beyond_the_mark_is_dropped() {
    let mut s = at_level(1, 8);
    assert!(s.score_rows(4));
    assert_eq!(s.level, 2);
    assert_eq!(s.lines_cleared, 0);
    assert_eq!(s.score, 800);
}

#[test]
fn one_cascade_raises_the_level_by_one_at_most() {
    let mut s = at_level(1, 0);
    assert!(s.score_rows(24));
    assert_eq!(s.level, 2);
    assert_eq!(s.lines_cleared, 0);
    assert_eq!(s.score, 300 * 24);
}

#[test]
fn a_level_takes_ten_rows_times_the_level() {
    let mut s = at_level(3, 0);
    for _ in 0..29 {
        assert!(!s.score_rows(1));
        assert_eq!(s.level, 3);
    }
    assert_eq!(s.lines_cleared, 29);
    assert!(s.score_rows(1));
    assert_eq!(s.level, 4);
    assert_eq!(s.lines_cleared, 0);
    assert_eq!(s.score, 30 * 300);
}

#[test]
fn the_level_stops_at_twenty() {
    let mut s = at_level(19, 189);
    assert!(s.score_rows(1));
    assert_eq!(s.level, 20);
    let mut s = at_level(20, 199);
    assert!(s.score_rows(1));
    assert_eq!(s.level, 20);
    assert_eq!(s.lines_cleared, 0);
    assert_eq!(s.score, 2000);
}

#[test]
fn very_many_rows_do_not_overflow() {
    let mut s = at_level(20, 199);
    assert!(s.score_rows(u32::MAX));
    assert_eq!(s.score, 300 * (u32::MAX as u64) * 20);
    assert_eq!(s.level, 20);
    assert_eq!(s.lines_cleared, 0);
    let mut s = Session { score: u64::MAX - 50, ..Session::new() };
    s.score_rows(1);
    assert_eq!(s.score, u64::MAX);
}

#[test]
fn add_score_saturates() {
    let mut s = Session::new();
    s.add_score(41);
    assert_eq!(s.score, 41);
    s.add_score(u64::MAX);
    assert_eq!(s.score, u64::MAX);
    assert_eq!(s.level, 1);
}

#[test]
fn fall_speed_by_level() {
    assert_eq!(FallSpeed::at_level(1), Some(FallSpeed { base_permille: 800, exponent: 0 }));
    assert_eq!(FallSpeed::at_level(2), Some(FallSpeed { base_permille: 793, exponent: 1 }));
    assert_eq!(FallSpeed::at_level(10), Some(FallSpeed { base_permille: 737, exponent: 9 }));
    assert_eq!(FallSpeed::at_level(20), Some(FallSpeed { base_permille: 667, exponent: 19 }));
    assert_eq!(FallSpeed::at_level(0), None);
    assert_eq!(FallSpeed::at_level(21), None);
    // at level 1 the factor is one: the interval is the base interval
    let one = FallSpeed::at_level(1).unwrap();
    assert_eq!((one.base_permille as f64 / 1000.0).powi(one.exponent as i32), 1.0);
}

#[test]
fn phases() {
    let s = Session::new();
    assert_eq!(s.current_phase(), Phase::Spawning);
    let playing = Session { awaiting_spawn: false, ..s };
    assert_eq!(playing.current_phase(), Phase::Playing);
    let paused = Session { active: false, ..playing };
    assert_eq!(paused.current_phase(), Phase::Paused);
    let lost = Session { game_over: true, active: false, ..playing };
    assert_eq!(lost.current_phase(), Phase::GameOver);
}

#[test]
fn sessions_that_are_not_well_formed() {
    assert!(!Session { level: 0, ..Session::new() }.is_valid());
    assert!(!Session { level: 21, ..Session::new() }.is_valid());
    assert!(!Session { lines_cleared: 10, ..Session::new() }.is_valid());
    assert!(Session { level: 2, lines_cleared: 19, ..Session::new() }.is_valid());
    assert!(!Session { level: 2, lines_cleared: 20, ..Session::new() }.is_valid());
    assert!(!Session { game_over: true, ..Session::new() }.is_valid());
    assert!(!Session { game_over: true, active: false, ..Session::new() }.is_valid());
    assert!(Session { game_over: true, active: false, awaiting_spawn: false, ..Session::new() }
        .is_valid());
    assert!(!Session { forced_fall: true, ..Session::new() }.is_valid());
    assert!(Session { forced_fall: true, drop_rows: 1, ..Session::new() }.is_valid());
}
