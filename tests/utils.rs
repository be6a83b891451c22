use ccc_clock::utils::{format_time, format_time_precise, to_seconds};

#[test]
fn test_format_time() {
    assert_eq!(format_time(125), "02:05");
    assert_eq!(format_time(59), "00:59");
    assert_eq!(format_time(3661), "61:01");
}

#[test]
fn test_format_time_precise() {
    // hundredths of a second: 125.37 s and 59.99 s
    assert_eq!(format_time_precise(12537), "02:05.37");
    assert_eq!(format_time_precise(5999), "00:59.99");
}

#[test]
fn test_to_seconds() {
    assert_eq!(to_seconds(2, 5), 125);
    assert_eq!(to_seconds(0, 59), 59);
    assert_eq!(to_seconds(1, 1), 61);
}

#[test]
fn format_time_zero_and_edges() {
    assert_eq!(format_time(0), "00:00");
    assert_eq!(format_time(60), "01:00");
    assert_eq!(format_time(599), "09:59");
    assert_eq!(format_time(5999), "99:59");
    assert_eq!(format_time(6000), "100:00");
    assert_eq!(format_time(360000), "6000:00");
}

#[test]
fn format_time_shape_holds_on_samples() {
    for s in [0u64, 1, 9, 10, 59, 61, 600, 3599, 3600, 86399, 1_000_000, u64::MAX] {
        let t = format_time(s);
        let (m, sec) = t.split_once(':').unwrap();
        assert!(m.len() >= 2 && m.chars().all(|c| c.is_ascii_digit()));
        assert!(sec.len() == 2 && sec.chars().all(|c| c.is_ascii_digit()));
        assert_eq!(m.parse::<u64>().unwrap(), s / 60);
        assert!(sec.parse::<u64>().unwrap() <= 59);
    }
}

#[test]
fn format_time_precise_edges() {
    assert_eq!(format_time_precise(0), "00:00.00");
    assert_eq!(format_time_precise(5), "00:00.05");
    assert_eq!(format_time_precise(100), "00:01.00");
    assert_eq!(format_time_precise(600_000), "100:00.00");
}

#[test]
fn to_seconds_largest() {
    assert_eq!(to_seconds(u32::MAX, u32::MAX), u32::MAX as u64 * 61);
    assert_eq!(to_seconds(59, 59), 3599);
}
