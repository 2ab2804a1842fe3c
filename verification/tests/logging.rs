use quetty::logging::{
    backup_extension, backups_to_remove, log_level_of, logging_notice, max_log_size_bytes,
    LogFileEntry, LogLevel, LogSizeTracker,
};

fn file(name: &str, modified_nanos: i128) -> LogFileEntry {
    LogFileEntry { name: name.to_string(), modified_nanos }
}

#[test]
fn level_names_ignore_case() {
    assert_eq!(log_level_of("TRACE"), LogLevel::Trace);
    assert_eq!(log_level_of("Debug"), LogLevel::Debug);
    assert_eq!(log_level_of("warn"), LogLevel::Warn);
    assert_eq!(log_level_of("error"), LogLevel::Error);
    assert_eq!(log_level_of("info"), LogLevel::Info);
    assert_eq!(log_level_of("verbose"), LogLevel::Info);
}

#[test]
fn start_notice() {
    assert_eq!(logging_notice(Some("/tmp/q.log"), "d.log"), "Logging to file: /tmp/q.log (with rotation)");
    assert_eq!(
        logging_notice(None, "logs/quetty.log"),
        "No log file configured. Logging to default file: logs/quetty.log (with rotation)"
    );
}

#[test]
fn rotation_size_in_bytes() {
    assert_eq!(max_log_size_bytes(10), Some(10 * 1024 * 1024));
    assert_eq!(max_log_size_bytes(u64::MAX), None);
}

#[test]
fn oldest_backups_are_removed() {
    let entries = vec![
        file("quetty.log", 100),
        file("quetty.log.20240101_000000", 10),
        file("other.log.1", 5),
        file("quetty.log.20240103_000000", 30),
        file("quetty.log.20240102_000000", 20),
        file("quetty.log.a", 20),
    ];
    assert_eq!(
        backups_to_remove("quetty", &entries, 2),
        vec!["quetty.log.a".to_string(), "quetty.log.20240101_000000".to_string()]
    );
    assert!(backups_to_remove("quetty", &entries, 4).is_empty());
    assert_eq!(backups_to_remove("quetty", &entries, 0).len(), 4);
}

#[test]
fn log_rotates_when_full() {
    let mut size = LogSizeTracker::new(90, 100);
    assert!(!size.needs_rotation());
    size.record_write(9);
    assert!(!size.needs_rotation());
    size.record_write(1);
    assert_eq!(size.current_size, 100);
    assert!(size.needs_rotation());
    size.rotated();
    assert_eq!(size.current_size, 0);
    assert_eq!(size.max_size, 100);
    assert_eq!(backup_extension("20240101_120000"), "log.20240101_120000");
}
