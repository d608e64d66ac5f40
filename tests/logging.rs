use support_agent::clock::{format_timestamp, ClockReading};
use support_agent::logfiles::{rotation_renames, slot_file_name, LogFileSet};
use support_agent::logger::{
    format_log_line, get_log_filename, get_logs_dir, log_line_now, needs_rotation, LogLevel,
    MAX_LOG_SIZE_BYTES,
};
use support_agent::text::push_decimal;

fn reading(year: i32, month: u32, day: u32, hour: u32, minute: u32, second: u32) -> ClockReading {
    ClockReading { year, month, day, hour, minute, second }
}

fn lines_of(set: &LogFileSet, slot: usize) -> Option<Vec<String>> {
    set.file(slot).as_ref().map(|f| f.lines.clone())
}

#[test]
fn level_tags() {
    assert_eq!(LogLevel::Info.as_str(), "INFO");
    assert_eq!(LogLevel::Warn.as_str(), "WARN");
    assert_eq!(LogLevel::Error.as_str(), "ERROR");
}

#[test]
fn level_parsing_is_case_insensitive() {
    assert_eq!(LogLevel::from("warn".to_string()), LogLevel::Warn);
    assert_eq!(LogLevel::from("Error".to_string()), LogLevel::Error);
    assert_eq!(LogLevel::from("INFO".to_string()), LogLevel::Info);
}

#[test]
fn unknown_level_is_info() {
    assert_eq!(LogLevel::from("debug".to_string()), LogLevel::Info);
    assert_eq!(LogLevel::from("".to_string()), LogLevel::Info);
    assert_eq!(LogLevel::from("warning".to_string()), LogLevel::Info);
}

#[test]
fn upper_cased_tag_lookup() {
    assert_eq!(LogLevel::from_upper("WARN"), LogLevel::Warn);
    assert_eq!(LogLevel::from_upper("warn"), LogLevel::Info);
}

#[test]
fn log_line_layout() {
    let line = format_log_line("2024-03-09 07:05:01", LogLevel::Error, "disk full");
    assert_eq!(line, "[2024-03-09 07:05:01][ERROR] disk full\n");
}

#[test]
fn log_line_now_layout() {
    let line = log_line_now(LogLevel::Warn, "hello");
    assert!(line.starts_with('['));
    assert_eq!(&line[20..], "][WARN] hello\n");
    let ts = &line[1..20];
    assert_eq!(&ts[4..5], "-");
    assert_eq!(&ts[10..11], " ");
    assert_eq!(&ts[13..14], ":");
}

#[test]
fn timestamp_is_zero_padded() {
    assert_eq!(format_timestamp(&reading(2024, 1, 5, 3, 4, 9)), "2024-01-05 03:04:09");
    assert_eq!(format_timestamp(&reading(999, 12, 31, 23, 59, 59)), "0999-12-31 23:59:59");
}

#[test]
fn timestamp_years_outside_four_digits() {
    assert_eq!(format_timestamp(&reading(12345, 6, 7, 8, 9, 10)), "+12345-06-07 08:09:10");
    assert_eq!(format_timestamp(&reading(-5, 6, 7, 8, 9, 10)), "-0005-06-07 08:09:10");
}

#[test]
fn decimal_padding() {
    let mut s = String::from("x");
    push_decimal(&mut s, 42, 4);
    assert_eq!(s, "x0042");
    let mut t = String::new();
    push_decimal(&mut t, 123456, 2);
    assert_eq!(t, "123456");
    let mut z = String::new();
    push_decimal(&mut z, 0, 0);
    assert_eq!(z, "0");
}

#[test]
fn log_file_names() {
    assert_eq!(get_log_filename(), "runtime_0.1.0.log");
    assert_eq!(slot_file_name(0), "runtime_0.1.0.log");
    assert_eq!(slot_file_name(3), "runtime_0.1.0.log.3");
}

#[test]
fn logs_dir_under_config_dir() {
    assert_eq!(get_logs_dir("/tmp/cfg"), "/tmp/cfg/logs");
}

#[test]
fn rotation_threshold_is_strict() {
    assert!(!needs_rotation(10 * 1024 * 1024));
    assert!(needs_rotation(10 * 1024 * 1024 + 1));
    assert!(!needs_rotation(0));
    assert_eq!(MAX_LOG_SIZE_BYTES, 10_485_760);
}

#[test]
fn rename_plan_order() {
    let plan = rotation_renames();
    let expected = vec![
        ("runtime_0.1.0.log.4", "runtime_0.1.0.log.5"),
        ("runtime_0.1.0.log.3", "runtime_0.1.0.log.4"),
        ("runtime_0.1.0.log.2", "runtime_0.1.0.log.3"),
        ("runtime_0.1.0.log.1", "runtime_0.1.0.log.2"),
        ("runtime_0.1.0.log", "runtime_0.1.0.log.1"),
    ];
    assert_eq!(plan.len(), 5);
    for (got, want) in plan.iter().zip(expected.iter()) {
        assert_eq!(got.0, want.0);
        assert_eq!(got.1, want.1);
    }
}

#[test]
fn last_line_is_the_appended_one() {
    let mut set = LogFileSet::new();
    set.append(format_log_line("2024-01-01 00:00:00", LogLevel::Info, "one"));
    set.append(format_log_line("2024-01-01 00:00:01", LogLevel::Warn, "two"));
    let lines = lines_of(&set, 0).unwrap();
    assert_eq!(lines.last().unwrap(), "[2024-01-01 00:00:01][WARN] two\n");
    assert_eq!(set.file(0).as_ref().unwrap().size, (lines[0].len() + lines[1].len()) as u64);
}

#[test]
fn file_exactly_at_limit_is_not_rotated() {
    let mut set = LogFileSet::new();
    set.append("a".repeat(10 * 1024 * 1024));
    assert_eq!(set.file(0).as_ref().unwrap().size, 10 * 1024 * 1024);
    set.append("next\n".to_string());
    assert!(set.file(1).is_none());
    assert_eq!(lines_of(&set, 0).unwrap().len(), 2);
}

#[test]
fn log_rotation_after_ten_mib_and_one_byte() {
    let mut set = LogFileSet::new();
    let body = "x".repeat(1024 - 29);
    let line = format_log_line("2024-01-01 00:00:00", LogLevel::Info, &body);
    assert_eq!(line.len(), 1024);
    for _ in 0..10240 {
        set.append(line.clone());
    }
    set.append("y".to_string());
    assert_eq!(set.file(0).as_ref().unwrap().size, 10 * 1024 * 1024 + 1);
    assert!(set.file(1).is_none());
    let last = format_log_line("2024-01-01 00:00:02", LogLevel::Info, "after");
    set.append(last.clone());
    assert_eq!(lines_of(&set, 0).unwrap(), vec![last]);
    let previous = set.file(1).as_ref().unwrap();
    assert_eq!(previous.size, 10 * 1024 * 1024 + 1);
    assert_eq!(previous.lines.len(), 10241);
    assert_eq!(previous.lines[0], line);
    assert_eq!(previous.lines[10240], "y");
    for slot in 2..6 {
        assert!(set.file(slot).is_none());
    }
}

#[test]
fn rotation_cascade_drops_oldest() {
    let mut set = LogFileSet::new();
    let big = |c: char| c.to_string().repeat(10 * 1024 * 1024 + 1);
    for c in ['a', 'b', 'c', 'd', 'e', 'f'] {
        set.append(big(c));
    }
    for slot in 0..6 {
        assert!(set.file(slot).is_some());
    }
    assert!(lines_of(&set, 5).unwrap()[0].starts_with('a'));
    assert!(lines_of(&set, 4).unwrap()[0].starts_with('b'));
    set.append("g\n".to_string());
    assert_eq!(lines_of(&set, 0).unwrap(), vec!["g\n".to_string()]);
    assert!(lines_of(&set, 1).unwrap()[0].starts_with('f'));
    assert!(lines_of(&set, 5).unwrap()[0].starts_with('b'));
    for slot in 1..6 {
        assert!(!lines_of(&set, slot).unwrap()[0].starts_with('a'));
    }
}
