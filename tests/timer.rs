use space_invaders::timer::{OnceTimer, RepeatingTimer};

#[test]
fn once_timer_finishes_and_stays() {
    let mut t = OnceTimer::new(5_000_000);
    assert_eq!(t.seconds_left(), 5);
    t.tick(1);
    assert_eq!(t.seconds_left(), 5);
    t.tick(999_999);
    assert_eq!(t.seconds_left(), 4);
    assert!(!t.finished());
    t.tick(u64::MAX);
    assert!(t.finished());
    assert_eq!(t.elapsed, 5_000_000);
    assert_eq!(t.seconds_left(), 0);
}

#[test]
fn repeating_timer_fires_each_period() {
    let mut t = RepeatingTimer::new(1_000_000);
    assert!(!t.tick(600_000));
    assert!(t.tick(600_000));
    assert_eq!(t.elapsed, 200_000);
    assert!(t.tick(2_800_000));
    assert_eq!(t.elapsed, 0);
}
