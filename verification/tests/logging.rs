use std::time::{Duration, SystemTime};
use talky::config::{Config, ConfigLoad};
use talky::error::BotError;
use std::time::UNIX_EPOCH;
use talky::logger::{
    format_entry, log_entry_at, rotated_log_path, EpochTime, LogType, EARLIEST_SECS, LATEST_SECS,
};

fn epoch_time(t: SystemTime) -> EpochTime {
    match t.duration_since(UNIX_EPOCH) {
        Ok(d) => EpochTime::After { secs: d.as_secs(), nanos: d.subsec_nanos() },
        Err(e) => EpochTime::Before { secs: e.duration().as_secs(), nanos: e.duration().subsec_nanos() },
    }
}

#[test]
fn entry_formats() {
    let e = format_entry("[2024-01-02 03:04:05]", LogType::Info, "hello");
    assert_eq!(e.file_text, "[2024-01-02 03:04:05] [INFO] hello\n");
    assert_eq!(e.console_text, e.file_text);

    let e = format_entry("[t]", LogType::Warning, "careful");
    assert_eq!(e.file_text, "[t] [WARNING] careful\n");
    assert_eq!(e.console_text, "\x1b[33m[t] [WARNING] careful\n\x1b[0m");

    let e = format_entry("[t]", LogType::Error, "broken");
    assert_eq!(e.file_text, "[t] [ERROR] broken\n");
    assert_eq!(e.console_text, "\x1b[31m[t] [ERROR] broken\n\x1b[0m");
}

#[test]
fn entry_now_is_stamped() {
    let e = log_entry_at(LogType::Info, "started", epoch_time(SystemTime::now()));
    assert!(e.file_text.starts_with('['));
    assert!(e.file_text.ends_with("] [INFO] started\n"));
    // "[YYYY-MM-DD HH:MM:SS]" is 21 characters long.
    assert_eq!(e.file_text.len(), 21 + " [INFO] started\n".len());
}

#[test]
fn rotated_log_is_named_after_its_creation() {
    let t = SystemTime::UNIX_EPOCH + Duration::from_secs(1_000_000_000);
    let path = rotated_log_path(epoch_time(t)).unwrap();
    assert!(path.starts_with("./logs/2001-09-"));
    assert!(path.ends_with(".log"));
    // "YYYY-MM-DD HH-MM-SS" is 19 characters long.
    assert_eq!(path.len(), "./logs/".len() + 19 + ".log".len());
}

#[test]
fn rotated_log_before_the_epoch() {
    let t = SystemTime::UNIX_EPOCH - Duration::from_secs(400 * 24 * 3600);
    let path = rotated_log_path(epoch_time(t)).unwrap();
    assert!(path.starts_with("./logs/1968-") || path.starts_with("./logs/1969-"));
    assert_eq!(path.len(), "./logs/".len() + 19 + ".log".len());
}

#[test]
fn rotated_log_at_the_edges_of_the_range() {
    let latest = EpochTime::After { secs: LATEST_SECS, nanos: 999_999_999 };
    assert!(rotated_log_path(latest).is_some());
    assert_eq!(rotated_log_path(EpochTime::After { secs: LATEST_SECS + 1, nanos: 0 }), None);
    let earliest = EpochTime::Before { secs: EARLIEST_SECS - 1, nanos: 999_999_999 };
    assert!(rotated_log_path(earliest).is_some());
    assert!(rotated_log_path(EpochTime::Before { secs: EARLIEST_SECS, nanos: 0 }).is_some());
    assert_eq!(rotated_log_path(EpochTime::Before { secs: EARLIEST_SECS, nanos: 1 }), None);
    assert_eq!(rotated_log_path(EpochTime::Before { secs: EARLIEST_SECS + 1, nanos: 0 }), None);
    let t = SystemTime::UNIX_EPOCH + Duration::from_secs(1u64 << 45);
    assert_eq!(rotated_log_path(epoch_time(t)), None);
}

#[test]
fn entry_out_of_range_is_marked() {
    let e = log_entry_at(LogType::Error, "late", EpochTime::After { secs: u64::MAX, nanos: 0 });
    assert_eq!(e.file_text, "[time out of range] [ERROR] late\n");
    let e = log_entry_at(LogType::Info, "then", EpochTime::After { secs: 0, nanos: 0 });
    assert!(e.file_text.ends_with("] [INFO] then\n"));
    assert_eq!(e.file_text.len(), 21 + " [INFO] then\n".len());
}

#[test]
fn empty_config_gets_default() {
    match Config::new("") {
        ConfigLoad::WriteDefault(config) => assert_eq!(config.token, "insert_token_here"),
        ConfigLoad::Parse => panic!("expected the default"),
    }
    match Config::new("token = \"abc\"") {
        ConfigLoad::Parse => {}
        ConfigLoad::WriteDefault(_) => panic!("expected parsing"),
    }
    assert_eq!(Config::default_config().token, "insert_token_here");
    assert!(matches!(Config::startup(true), ConfigLoad::Parse));
    match Config::startup(false) {
        ConfigLoad::WriteDefault(config) => assert_eq!(config.token, "insert_token_here"),
        ConfigLoad::Parse => panic!("expected the default"),
    }
}

#[test]
fn serenity_error_converts() {
    let e: BotError = poise::serenity_prelude::Error::Other("boom").into();
    match e {
        BotError::SerenityError(inner) => assert_eq!(inner.to_string(), "boom"),
    }
}

#[test]
fn different_times_name_different_files() {
    let a = rotated_log_path(EpochTime::After { secs: 1_000_000_000, nanos: 0 }).unwrap();
    let b = rotated_log_path(EpochTime::After { secs: 1_000_003_600, nanos: 0 }).unwrap();
    assert_ne!(a, b);
}
