use livesplit_one::logging::{log_line, timestamp, Level, LocalTime};

fn time(year: i32, month: u32, day: u32, hour: u32, minute: u32, second: u32) -> LocalTime {
    LocalTime { year, month, day, hour, minute, second }
}

fn stamp(year: i32, month: u32, day: u32) -> Option<String> {
    timestamp(&time(year, month, day, 0, 0, 0))
}

#[test]
fn timestamp_pads_each_number() {
    assert_eq!(
        timestamp(&time(2024, 3, 9, 7, 5, 1)).as_deref(),
        Some("[2024-03-09 07:05:01]")
    );
    assert_eq!(
        timestamp(&time(1999, 12, 31, 23, 59, 59)).as_deref(),
        Some("[1999-12-31 23:59:59]")
    );
}

#[test]
fn timestamp_of_unusual_years() {
    assert_eq!(stamp(0, 1, 1).as_deref(), Some("[0000-01-01 00:00:00]"));
    assert_eq!(stamp(987, 1, 1).as_deref(), Some("[0987-01-01 00:00:00]"));
    assert_eq!(stamp(9999, 1, 1).as_deref(), Some("[9999-01-01 00:00:00]"));
    assert_eq!(stamp(10000, 1, 1).as_deref(), Some("[+10000-01-01 00:00:00]"));
    assert_eq!(stamp(-5, 1, 1).as_deref(), Some("[-0005-01-01 00:00:00]"));
    assert_eq!(stamp(-12345, 1, 1).as_deref(), Some("[-12345-01-01 00:00:00]"));
}

#[test]
fn timestamp_knows_the_calendar() {
    assert!(stamp(2024, 2, 29).is_some());
    assert!(stamp(2023, 2, 29).is_none());
    assert!(stamp(2000, 2, 29).is_some());
    assert!(stamp(1900, 2, 29).is_none());
    assert!(stamp(-4, 2, 29).is_some());
    assert!(stamp(2023, 4, 30).is_some());
    assert!(stamp(2023, 4, 31).is_none());
    assert!(stamp(2023, 8, 31).is_some());
    assert!(stamp(2023, 8, 32).is_none());
    assert!(stamp(2023, 0, 1).is_none());
    assert!(stamp(2023, 13, 1).is_none());
    assert!(stamp(2023, 1, 0).is_none());
}

#[test]
fn timestamp_ends_with_the_years_of_the_calendar() {
    assert!(stamp(262142, 12, 31).is_some());
    assert!(stamp(262143, 1, 1).is_none());
    assert!(stamp(-262143, 1, 1).is_some());
    assert!(stamp(-262144, 12, 31).is_none());
}

#[test]
fn timestamp_knows_the_clock() {
    assert!(timestamp(&time(2024, 1, 1, 24, 0, 0)).is_none());
    assert!(timestamp(&time(2024, 1, 1, 0, 60, 0)).is_none());
    assert!(timestamp(&time(2024, 1, 1, 0, 0, 60)).is_none());
}

#[test]
fn log_line_holds_all_parts() {
    let line = log_line("[2024-03-09 07:05:01]", "livesplit", Level::Warn, "no splits");
    assert_eq!(line, "[2024-03-09 07:05:01][livesplit][WARN] no splits");
}

#[test]
fn log_line_names_each_level() {
    assert_eq!(log_line("", "a", Level::Error, "b"), "[a][ERROR] b");
    assert_eq!(log_line("", "a", Level::Warn, "b"), "[a][WARN] b");
    assert_eq!(log_line("", "a", Level::Info, "b"), "[a][INFO] b");
    assert_eq!(log_line("", "a", Level::Debug, "b"), "[a][DEBUG] b");
    assert_eq!(log_line("", "a", Level::Trace, "b"), "[a][TRACE] b");
}

#[test]
fn log_line_of_empty_parts() {
    assert_eq!(log_line("", "", Level::Info, ""), "[][INFO] ");
}
