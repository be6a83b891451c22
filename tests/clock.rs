use ccc_clock::clock::{Clock, LocalDateTime};

fn at(year: i32, month: u32, day: u32, hour: u32, minute: u32, second: u32) -> LocalDateTime {
    LocalDateTime { year, month, day, hour, minute, second }
}

#[test]
fn clock_face_lines() {
    let c = Clock::new();
    let f = c.face(&at(2024, 3, 15, 13, 4, 5)).unwrap();
    assert_eq!(f.date_line, "Date: 2024-03-15");
    assert_eq!(f.time_line, "Time: 13:04:05");
    assert_eq!(f.day_line, "Day: Friday");
    assert_eq!(f.big_time, "13:04:05");
}

#[test]
fn clock_face_leap_day() {
    let c = Clock::default();
    let f = c.face(&at(2000, 2, 29, 0, 0, 0)).unwrap();
    assert_eq!(f.date_line, "Date: 2000-02-29");
    assert_eq!(f.day_line, "Day: Tuesday");
    assert!(c.face(&at(1900, 2, 29, 0, 0, 0)).is_none());
    assert!(c.face(&at(2023, 2, 29, 0, 0, 0)).is_none());
}

#[test]
fn clock_face_rejects_invalid() {
    let c = Clock::new();
    assert!(c.face(&at(2024, 13, 1, 0, 0, 0)).is_none());
    assert!(c.face(&at(2024, 4, 31, 0, 0, 0)).is_none());
    assert!(c.face(&at(2024, 4, 0, 0, 0, 0)).is_none());
    assert!(c.face(&at(2024, 4, 30, 24, 0, 0)).is_none());
    assert!(c.face(&at(2024, 4, 30, 23, 60, 0)).is_none());
    assert!(c.face(&at(2024, 4, 30, 23, 59, 60)).is_none());
    assert!(c.face(&at(262143, 1, 1, 0, 0, 0)).is_none());
    assert!(c.face(&at(262142, 12, 31, 23, 59, 59)).is_some());
    assert!(c.face(&at(-262143, 1, 1, 0, 0, 0)).is_some());
}
