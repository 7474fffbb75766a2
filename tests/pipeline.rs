use std::sync::atomic::{AtomicUsize, Ordering};
use std::sync::Arc;
use std::time::{Duration, Instant};

use libcommon::channel::LogMessage;
use libcommon::clock::{log_file_name, timestamp_text, LocalTime};
use libcommon::level::{Level, LevelFilter};
use libcommon::pipeline::{log_flush, log_setup_result, log_setup_with_writer, LogError, LogPipeline};
use libcommon::record::{format_record, LogRecord};
use libcommon::runner::{LogRunner, RunnerAction, StopReason, DEFAULT_MAX_SIZE};

fn at(year: i32, month: u32, day: u32, hour: u32, minute: u32, second: u32) -> LocalTime {
    LocalTime { year, month, day, hour, minute, second, nanosecond: 0 }
}

fn append(action: RunnerAction) -> libcommon::runner::AppendRequest {
    match action {
        RunnerAction::Append(req) => req,
        RunnerAction::Stop(reason) => panic!("expected an append, got a stop: {:?}", reason),
    }
}

fn is_timestamp(s: &str) -> bool {
    let b = s.as_bytes();
    b.len() == 19
        && b.iter().enumerate().all(|(i, c)| match i {
            4 | 7 => *c == b'-',
            10 => *c == b' ',
            13 | 16 => *c == b':',
            _ => c.is_ascii_digit(),
        })
}

#[test]
fn leap_second_shows_as_sixty() {
    let mut t = at(2016, 12, 31, 23, 59, 59);
    t.nanosecond = 1_500_000_000;
    assert_eq!(timestamp_text(&t), "2016-12-31 23:59:60");
    assert_eq!(log_file_name(&t), "log_201612312359.txt");
}

#[test]
fn timestamp_and_file_name_formats() {
    let t = at(2024, 3, 7, 9, 5, 2);
    assert_eq!(timestamp_text(&t), "2024-03-07 09:05:02");
    assert_eq!(log_file_name(&t), "log_202403070905.txt");
    let t = at(987, 12, 31, 23, 59, 59);
    assert_eq!(timestamp_text(&t), "0987-12-31 23:59:59");
    assert_eq!(log_file_name(&t), "log_098712312359.txt");
}

#[test]
fn years_outside_four_digits_carry_a_sign() {
    assert_eq!(timestamp_text(&at(10000, 1, 1, 0, 0, 0)), "+10000-01-01 00:00:00");
    assert_eq!(timestamp_text(&at(-5, 1, 1, 0, 0, 0)), "-0005-01-01 00:00:00");
    assert_eq!(log_file_name(&at(-12345, 6, 1, 0, 0, 0)), "log_-1234506010000.txt");
}

#[test]
fn five_lines_fit_without_a_consumer() {
    let mut pipeline = LogPipeline::new();
    let runner = log_setup_with_writer(&mut pipeline, "logs".to_string(), LevelFilter::Trace, DEFAULT_MAX_SIZE);
    assert!(runner.is_some());
    for i in 0..5 {
        assert_eq!(pipeline.write(format!("line {i}")), Ok(()));
    }
}

#[test]
fn sixth_line_waits_for_the_consumer() {
    let mut pipeline = LogPipeline::new();
    let mut runner = log_setup_with_writer(&mut pipeline, "logs".to_string(), LevelFilter::Trace, DEFAULT_MAX_SIZE)
        .unwrap();
    let mut producer_tx = pipeline.producer().unwrap();
    let sent = Arc::new(AtomicUsize::new(0));
    let executor = tokio::runtime::Builder::new_current_thread().build().unwrap();
    let producer = {
        let sent = Arc::clone(&sent);
        executor.spawn_blocking(move || {
            for i in 0..6 {
                producer_tx.write(format!("line {i}")).unwrap();
                sent.fetch_add(1, Ordering::SeqCst);
            }
        })
    };
    let start = Instant::now();
    while start.elapsed() < Duration::from_millis(300) {
        std::hint::spin_loop();
    }
    assert_eq!(sent.load(Ordering::SeqCst), 5);
    let req = append(runner.next_action());
    assert!(req.text.ends_with("  line 0\n"));
    executor.block_on(producer).unwrap();
    assert_eq!(sent.load(Ordering::SeqCst), 6);
}

#[test]
fn two_lines_over_the_threshold_rotate() {
    let (_tx, rx) = crossbeam_channel::bounded(5);
    let mut runner = LogRunner::new("logs".to_string(), rx, 100);
    let line1 = "a".repeat(60);
    let line2 = "b".repeat(60);
    let t1 = at(2024, 1, 2, 3, 4, 5);
    let t2 = at(2024, 1, 2, 3, 5, 1);

    let first = append(runner.apply(LogMessage::Line(line1.clone()), &t1));
    assert!(first.rotated);
    assert_eq!(first.file, "log_202401020304.txt");
    assert_eq!(first.line_len, 60);
    assert_eq!(first.text, format!("2024-01-02 03:04:05  {line1}\n"));
    runner.on_write_done(true);
    assert_eq!(runner.current_size(), 60);

    let second = append(runner.apply(LogMessage::Line(line2.clone()), &t2));
    assert!(second.rotated);
    assert_eq!(second.file, "log_202401020305.txt");
    assert_ne!(first.file, second.file);
    runner.on_write_done(true);
    assert_eq!(runner.current_size(), 60);
}

#[test]
fn rotation_within_one_minute_reuses_the_name() {
    let (_tx, rx) = crossbeam_channel::bounded(5);
    let mut runner = LogRunner::new("logs".to_string(), rx, 100);
    let t1 = at(2024, 1, 2, 3, 4, 5);
    let t2 = at(2024, 1, 2, 3, 4, 50);
    let first = append(runner.apply(LogMessage::Line("a".repeat(60)), &t1));
    runner.on_write_done(true);
    let second = append(runner.apply(LogMessage::Line("b".repeat(60)), &t2));
    assert!(first.rotated && second.rotated);
    assert_eq!(first.file, second.file);
}

#[test]
fn lines_under_the_threshold_share_a_file() {
    let (_tx, rx) = crossbeam_channel::bounded(5);
    let mut runner = LogRunner::new("logs".to_string(), rx, 100);
    let t1 = at(2024, 1, 2, 3, 4, 5);
    let t2 = at(2024, 1, 2, 3, 9, 0);
    let first = append(runner.apply(LogMessage::Line("a".repeat(50)), &t1));
    runner.on_write_done(true);
    let second = append(runner.apply(LogMessage::Line("b".repeat(50)), &t2));
    assert!(!second.rotated);
    assert_eq!(second.file, first.file);
    runner.on_write_done(true);
    assert_eq!(runner.current_size(), 100);
    let third = append(runner.apply(LogMessage::Line("c".to_string()), &t2));
    assert!(third.rotated);
    assert_eq!(third.file, "log_202401020309.txt");
}

#[test]
fn failed_write_leaves_the_size() {
    let (_tx, rx) = crossbeam_channel::bounded(5);
    let mut runner = LogRunner::new("logs".to_string(), rx, 100);
    let t = at(2024, 1, 2, 3, 4, 5);
    let _ = append(runner.apply(LogMessage::Line("abc".to_string()), &t));
    runner.on_write_done(false);
    assert_eq!(runner.current_size(), 0);
    let next = append(runner.apply(LogMessage::Line("de".to_string()), &t));
    assert!(!next.rotated);
    runner.on_write_done(true);
    assert_eq!(runner.current_size(), 2);
}

#[test]
fn line_size_counts_bytes() {
    let (_tx, rx) = crossbeam_channel::bounded(5);
    let mut runner = LogRunner::new("logs".to_string(), rx, 100);
    let req = append(runner.apply(LogMessage::Line("日志".to_string()), &at(2024, 1, 1, 0, 0, 0)));
    assert_eq!(req.line_len, 6);
}

#[test]
fn flush_stops_the_runner_for_good() {
    let mut pipeline = LogPipeline::new();
    let mut runner = log_setup_with_writer(&mut pipeline, "logs".to_string(), LevelFilter::Trace, DEFAULT_MAX_SIZE)
        .unwrap();
    assert_eq!(pipeline.write("before".to_string()), Ok(()));
    assert_eq!(log_flush(&mut pipeline), Ok(()));
    let req = append(runner.next_action());
    assert!(req.text.ends_with("  before\n"));
    runner.on_write_done(true);
    assert!(matches!(runner.next_action(), RunnerAction::Stop(StopReason::Shutdown)));
    assert!(runner.is_closed());
    assert_eq!(pipeline.write("after".to_string()), Ok(()));
    assert!(matches!(runner.next_action(), RunnerAction::Stop(StopReason::Shutdown)));
}

#[test]
fn runner_stops_when_every_sender_is_gone() {
    let mut pipeline = LogPipeline::new();
    let mut runner = log_setup_with_writer(&mut pipeline, "logs".to_string(), LevelFilter::Trace, DEFAULT_MAX_SIZE)
        .unwrap();
    drop(pipeline);
    assert!(matches!(runner.next_action(), RunnerAction::Stop(StopReason::Disconnected)));
    assert!(runner.is_closed());
}

#[test]
fn write_after_the_runner_is_gone_fails() {
    let mut pipeline = LogPipeline::new();
    let runner = log_setup_with_writer(&mut pipeline, "logs".to_string(), LevelFilter::Trace, DEFAULT_MAX_SIZE);
    drop(runner);
    assert_eq!(log_flush(&mut pipeline), Err(LogError::ChannelClosed));
    assert_eq!(pipeline.write("lost".to_string()), Err(LogError::ChannelClosed));
}

#[test]
fn second_setup_starts_no_second_runner() {
    let mut pipeline = LogPipeline::new();
    let first = log_setup_with_writer(&mut pipeline, "a".to_string(), LevelFilter::Warn, 100);
    let second = log_setup_with_writer(&mut pipeline, "b".to_string(), LevelFilter::Trace, 200);
    assert!(first.is_some());
    assert!(second.is_none());
    assert_eq!(first.unwrap().dir(), "a");
    assert!(!pipeline.enabled(Level::Info));
    assert_eq!(log_setup_result(&mut pipeline, LevelFilter::Trace), Err(LogError::AlreadyInitialized));
}

#[test]
fn setup_after_plain_setup_starts_no_runner() {
    let mut pipeline = LogPipeline::new();
    assert_eq!(log_setup_result(&mut pipeline, LevelFilter::Info), Ok(()));
    assert!(log_setup_with_writer(&mut pipeline, "a".to_string(), LevelFilter::Trace, 100).is_none());
    assert_eq!(pipeline.write("kept nowhere".to_string()), Ok(()));
}

#[test]
fn persisted_entry_holds_the_message_after_a_timestamp() {
    let mut pipeline = LogPipeline::new();
    let mut runner = log_setup_with_writer(&mut pipeline, "logs".to_string(), LevelFilter::Trace, DEFAULT_MAX_SIZE)
        .unwrap();
    let rec = LogRecord {
        level: Level::Info,
        target: "app".to_string(),
        message: "disk is 91% full".to_string(),
        file: Some("src/main.rs".to_string()),
        line: Some(12),
    };
    assert_eq!(pipeline.write(format_record(&rec)), Ok(()));
    let req = append(runner.next_action());
    assert!(req.rotated);
    assert!(is_timestamp(&req.text[..19]));
    assert_eq!(&req.text[19..21], "  ");
    assert!(req.text.contains("disk is 91% full"));
    assert!(req.text.ends_with(" INFO: disk is 91% full    ===> (src/main.rs:12)\n"));
    assert!(req.file.starts_with("log_") && req.file.ends_with(".txt"));
    assert_eq!(req.file.len(), "log_YYYYMMDDHHmm.txt".len());
}

#[test]
fn producers_share_the_channel() {
    let mut pipeline = LogPipeline::new();
    assert!(pipeline.producer().is_none());
    let mut runner = log_setup_with_writer(&mut pipeline, "logs".to_string(), LevelFilter::Trace, DEFAULT_MAX_SIZE)
        .unwrap();
    let mut a = pipeline.producer().unwrap();
    let mut b = pipeline.producer().unwrap();
    assert_eq!(a.write("from a".to_string()), Ok(()));
    assert_eq!(b.write("from b".to_string()), Ok(()));
    assert_eq!(b.flush(), Ok(()));
    assert!(append(runner.next_action()).text.ends_with("  from a\n"));
    assert!(append(runner.next_action()).text.ends_with("  from b\n"));
    assert!(matches!(runner.next_action(), RunnerAction::Stop(StopReason::Shutdown)));
    drop(runner);
    assert_eq!(a.write("late".to_string()), Err(LogError::ChannelClosed));
}

#[test]
fn flush_without_a_runner_does_nothing() {
    let mut pipeline = LogPipeline::new();
    assert_eq!(log_flush(&mut pipeline), Ok(()));
    assert_eq!(log_setup_result(&mut pipeline, LevelFilter::Info), Ok(()));
    assert_eq!(log_flush(&mut pipeline), Ok(()));
}
