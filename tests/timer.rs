use ccc_clock::timer::Timer;

#[test]
fn timer_runs_out_after_fifteen_seconds() {
    let mut t = Timer::new();
    t.configure(0, 10);
    assert_eq!(t.target_seconds(), 10);
    t.start();
    assert_eq!(t.remaining_micros(), 10_000_000);
    assert!(t.is_running());
    assert!(!t.is_finished());
    assert_eq!(t.display(), "00:10");
    t.tick(15_000_000);
    assert_eq!(t.remaining_micros(), 0);
    assert!(t.is_finished());
    assert!(t.is_running());
    assert_eq!(t.display(), "00:00");
}

#[test]
fn timer_counts_down_by_frames() {
    let mut t = Timer::new();
    t.configure(2, 5);
    t.start();
    t.tick(500_000);
    assert_eq!(t.remaining_micros(), 124_500_000);
    assert_eq!(t.display(), "02:04");
    assert!(!t.is_finished());
    t.tick(124_500_000);
    assert_eq!(t.remaining_micros(), 0);
    assert!(t.is_finished());
}

#[test]
fn timer_set_to_zero_finishes_on_first_frame() {
    let mut t = Timer::new();
    t.start();
    assert!(!t.is_finished());
    t.tick(0);
    assert!(t.is_finished());
}

#[test]
fn timer_configure_ignored_while_running() {
    let mut t = Timer::new();
    t.configure(1, 0);
    t.start();
    t.configure(5, 5);
    assert_eq!(t.minutes_setting(), 1);
    assert_eq!(t.seconds_setting(), 0);
    t.start();
    t.tick(1_000_000);
    t.start();
    assert_eq!(t.remaining_micros(), 59_000_000);
}

#[test]
fn timer_stop_clears_flags_and_restart_reseeds() {
    let mut t = Timer::new();
    t.configure(0, 1);
    t.start();
    t.tick(2_000_000);
    assert!(t.is_finished());
    t.stop();
    assert!(!t.is_running());
    assert!(!t.is_finished());
    t.tick(1);
    assert!(!t.is_finished());
    t.configure(0, 3);
    t.start();
    assert_eq!(t.remaining_micros(), 3_000_000);
}

#[test]
fn timer_start_again_after_finishing() {
    let mut t = Timer::default();
    t.configure(0, 2);
    t.start();
    t.tick(3_000_000);
    assert!(t.is_finished());
    t.start();
    assert!(!t.is_finished());
    assert_eq!(t.remaining_micros(), 2_000_000);
}
