use libcommon::level::{default_filter, is_level_str, level_color, level_enabled, level_label};
use libcommon::level::{ConsoleColor, Level, LevelFilter};
use libcommon::pipeline::{log_setup_result, LogError, LogPipeline};
use libcommon::record::{format_record, LogRecord};

fn record(level: Level, message: &str) -> LogRecord {
    LogRecord {
        level,
        target: "app".to_string(),
        message: message.to_string(),
        file: None,
        line: None,
    }
}

const LEVELS: [Level; 5] = [Level::Trace, Level::Debug, Level::Info, Level::Warn, Level::Error];

#[test]
fn test_macro_log() {
    // Nothing is set up: every level is filtered out and nothing is handed on.
    let mut pipeline = LogPipeline::new();
    let messages = [
        "test macro log trace",
        "test macro log debug",
        "test macro log info",
        "test macro log warn",
        "test macro log error",
    ];
    for (level, message) in LEVELS.iter().zip(messages.iter()) {
        assert!(!pipeline.enabled(*level));
        assert_eq!(pipeline.render(&record(*level, message)), None);
        let line = format_record(&record(*level, message));
        assert!(line.ends_with(message));
        assert_eq!(pipeline.write(line), Ok(()));
    }
}

#[test]
fn it_works() {
    let rec = LogRecord {
        level: Level::Info,
        target: "log:record".to_string(),
        message: "hello world".to_string(),
        file: Some("src/lib.rs".to_string()),
        line: Some(7),
    };
    assert_eq!(format_record(&rec), "hello world");
}

#[test]
fn test_log() {
    let mut pipeline = LogPipeline::new();
    assert_eq!(log_setup_result(&mut pipeline, default_filter(true)), Ok(()));
    let messages = [
        "test log trace",
        "test log debug",
        "test log info",
        "test log warn",
        "test log error",
    ];
    let expected = [
        "TRACE: test log trace",
        "DEBUG: test log debug",
        " INFO: test log info",
        " WARN: test log warn",
        "ERROR: test log error",
    ];
    for i in 0..5 {
        assert!(pipeline.enabled(LEVELS[i]));
        let line = pipeline.render(&record(LEVELS[i], messages[i])).unwrap();
        assert_eq!(line, expected[i]);
        assert_eq!(pipeline.write(line), Ok(()));
    }
}

#[test]
fn line_with_source_location() {
    let rec = LogRecord {
        level: Level::Warn,
        target: "app::net".to_string(),
        message: "retrying".to_string(),
        file: Some("src/net.rs".to_string()),
        line: Some(1042),
    };
    assert_eq!(format_record(&rec), " WARN: retrying    ===> (src/net.rs:1042)");
}

#[test]
fn location_needs_file_and_line() {
    let mut rec = record(Level::Error, "boom");
    rec.file = Some("src/a.rs".to_string());
    assert_eq!(format_record(&rec), "ERROR: boom");
    rec.file = None;
    rec.line = Some(3);
    assert_eq!(format_record(&rec), "ERROR: boom");
    rec.file = Some("a.rs".to_string());
    rec.line = Some(0);
    assert_eq!(format_record(&rec), "ERROR: boom    ===> (a.rs:0)");
}

#[test]
fn level_filter_orders_levels() {
    assert!(level_enabled(Level::Error, LevelFilter::Error));
    assert!(!level_enabled(Level::Warn, LevelFilter::Error));
    assert!(level_enabled(Level::Info, LevelFilter::Info));
    assert!(!level_enabled(Level::Debug, LevelFilter::Info));
    assert!(level_enabled(Level::Trace, LevelFilter::Trace));
    assert!(!level_enabled(Level::Error, LevelFilter::Off));
    assert_eq!(default_filter(true), LevelFilter::Trace);
    assert_eq!(default_filter(false), LevelFilter::Info);
}

#[test]
fn release_filter_lets_info_and_above_through() {
    let mut pipeline = LogPipeline::new();
    assert_eq!(log_setup_result(&mut pipeline, default_filter(false)), Ok(()));
    assert!(pipeline.enabled(Level::Error));
    assert!(pipeline.enabled(Level::Warn));
    assert!(pipeline.enabled(Level::Info));
    assert!(!pipeline.enabled(Level::Debug));
    assert!(!pipeline.enabled(Level::Trace));
}

#[test]
fn labels_and_colors() {
    assert_eq!(level_label(Level::Error), "ERROR");
    assert_eq!(level_label(Level::Warn), " WARN");
    assert_eq!(level_label(Level::Info), " INFO");
    assert_eq!(level_label(Level::Debug), "DEBUG");
    assert_eq!(level_label(Level::Trace), "TRACE");
    assert_eq!(level_color(Level::Error), ConsoleColor::Red);
    assert_eq!(level_color(Level::Warn), ConsoleColor::Yellow);
    assert_eq!(level_color(Level::Info), ConsoleColor::Green);
    assert_eq!(level_color(Level::Debug), ConsoleColor::Cyan);
    assert_eq!(level_color(Level::Trace), ConsoleColor::White);
}

#[test]
fn level_names() {
    let (ok, names) = is_level_str("debug");
    assert!(ok);
    assert_eq!(names, vec!["trace", "debug", "info", "warn", "error", "record"]);
    assert!(is_level_str("record").0);
    assert!(!is_level_str("/a").0);
    assert!(!is_level_str("").0);
    assert!(!is_level_str("Debug").0);
}

#[test]
fn setup_twice_reports_already_initialized() {
    let mut pipeline = LogPipeline::new();
    assert_eq!(log_setup_result(&mut pipeline, LevelFilter::Warn), Ok(()));
    assert_eq!(
        log_setup_result(&mut pipeline, LevelFilter::Trace),
        Err(LogError::AlreadyInitialized)
    );
    assert!(!pipeline.enabled(Level::Info));
    assert!(pipeline.enabled(Level::Warn));
}
