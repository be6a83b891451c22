use ccc_clock::stopwatch::Stopwatch;

#[test]
fn stopwatch_counts_only_while_running() {
    let mut s = Stopwatch::new();
    assert_eq!(s.elapsed_micros(), 0);
    assert!(!s.is_running());
    s.tick(500_000);
    assert_eq!(s.elapsed_micros(), 0);
    s.start();
    s.tick(16_667);
    assert_eq!(s.elapsed_micros(), 16_667);
    s.tick(1_000_000);
    assert_eq!(s.elapsed_micros(), 1_016_667);
    s.stop();
    s.tick(1_000_000);
    assert_eq!(s.elapsed_micros(), 1_016_667);
    assert_eq!(s.display(), "00:01.01");
}

#[test]
fn stopwatch_start_twice_is_no_op() {
    let mut s = Stopwatch::default();
    s.start();
    s.tick(40);
    s.start();
    assert!(s.is_running());
    assert_eq!(s.elapsed_micros(), 40);
}

#[test]
fn stopwatch_reset_from_any_state() {
    let mut s = Stopwatch::new();
    s.start();
    s.tick(125_370_000);
    assert_eq!(s.display(), "02:05.37");
    s.reset();
    assert_eq!(s.elapsed_micros(), 0);
    assert!(!s.is_running());
    s.reset();
    assert_eq!(s.elapsed_micros(), 0);
    assert!(!s.is_running());
}

#[test]
fn stopwatch_saturates_at_largest_count() {
    let mut s = Stopwatch::new();
    s.start();
    s.tick(u64::MAX - 5);
    s.tick(100);
    assert_eq!(s.elapsed_micros(), u64::MAX);
}
