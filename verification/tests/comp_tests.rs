use per_spatium::comp::{sat_add_limited, top_up, Timer, STAT_LIMIT};

#[test]
fn timer_counts_down_and_latches() {
    let mut t = Timer::from_ms(500);
    assert!(!t.finished);
    t.tick(300);
    assert!(!t.finished);
    assert_eq!(t.elapsed_ms, 300);
    t.tick(300);
    assert!(t.finished);
    assert_eq!(t.elapsed_ms, 500);
    t.tick(1000);
    assert!(t.finished);
    assert_eq!(t.elapsed_ms, 500);
}

#[test]
fn timer_reset_starts_over() {
    let mut t = Timer::from_ms(100);
    t.tick(100);
    assert!(t.finished);
    t.reset();
    assert!(!t.finished);
    assert_eq!(t.elapsed_ms, 0);
    t.tick(99);
    assert!(!t.finished);
    t.tick(1);
    assert!(t.finished);
}

#[test]
fn zero_duration_timer_finishes_on_first_tick() {
    let mut t = Timer::from_ms(0);
    assert!(!t.finished);
    t.tick(1);
    assert!(t.finished);
}

#[test]
fn saturating_add_stays_below_limit() {
    assert_eq!(sat_add_limited(3, 4, 100), 7);
    assert_eq!(sat_add_limited(60, 50, 100), 100);
    assert_eq!(sat_add_limited(0, 0, 100), 0);
    assert_eq!(sat_add_limited(STAT_LIMIT, STAT_LIMIT, STAT_LIMIT), STAT_LIMIT);
}

#[test]
fn top_up_never_exceeds_max() {
    assert_eq!(top_up(50, 90, 100), 100);
    assert_eq!(top_up(50, 40, 100), 90);
    assert_eq!(top_up(0, 0, 0), 0);
    assert_eq!(top_up(10, 200, 40), 40);
}
