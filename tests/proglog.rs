use proglog::{
    to_decimal, BuildError, CountFormatterKind, ProgLog, ProgLogBuilder, DEFAULT_LEVEL,
    DEFAULT_UNIT,
};
use rayon::iter::{IntoParallelIterator, ParallelIterator};
use std::cell::Cell;

fn record_in_threads(log: &ProgLog, workers: usize, per_worker: usize) -> Vec<String> {
    (0..workers * per_worker)
        .into_par_iter()
        .filter_map(|_| log.record())
        .collect()
}

fn simple_case() {
    let my_logger = ProgLogBuilder::new().build().unwrap();
    for _i in 0..101 {
        my_logger.record();
    }
    assert_eq!(my_logger.seen(), 101);
}

fn threaded_case() {
    let my_logger = ProgLogBuilder::new().build().unwrap();
    let lines = record_in_threads(&my_logger, 4, 250_000);
    assert_eq!(my_logger.seen(), 1_000_000);
    assert_eq!(lines.len(), 10);
}

fn messages_simple() {
    let my_logger = ProgLogBuilder::new().unit(1).build().unwrap();
    let line = my_logger.record_with(|| "This is a test".to_string());
    assert!(line.unwrap().ends_with("This is a test"));
}

fn messages_simple_verify_unit() {
    let my_logger = ProgLogBuilder::new().unit(10).build().unwrap();
    for _ in 0..9 {
        assert_eq!(my_logger.record_with(|| "This is a test".to_string()), None);
    }
    let line = my_logger.record_with(|| "The 10th".to_string());
    assert!(line.unwrap().ends_with("The 10th"));
}

fn messages_threaded() {
    let my_logger = ProgLogBuilder::new().unit(100_000).build().unwrap();
    let lines = record_in_threads(&my_logger, 4, 250_000);
    assert_eq!(my_logger.seen(), 1_000_000);
    assert_eq!(lines.len(), 10);
    for msg in (100_000..=1_000_000).step_by(100_000) {
        let expected = format!("[proglog] Processed {} records", msg);
        assert!(lines.contains(&expected));
    }
}

fn messages_threaded_with_extra() {
    let my_logger = ProgLogBuilder::new().unit(100_000).build().unwrap();
    let lines: Vec<String> = (1..=1_000_000u64)
        .into_par_iter()
        .filter_map(|i| my_logger.record_with(|| format!("Logged {}", i)))
        .collect();
    assert_eq!(my_logger.seen(), 1_000_000);
    assert_eq!(lines.len(), 10);
    for msg in (100_000..=1_000_000).step_by(100_000) {
        let prefix = format!("[proglog] Processed {} records: Logged ", msg);
        assert_eq!(lines.iter().filter(|l| l.starts_with(&prefix)).count(), 1);
    }
}

fn pretty_counts() {
    let my_logger = ProgLogBuilder::new()
        .unit(100_000)
        .count_formatter(CountFormatterKind::Underscore)
        .build()
        .unwrap();
    for _ in 0..99_999 {
        assert_eq!(my_logger.record_with(|| "This is a test".to_string()), None);
    }
    let line = my_logger.record_with(|| "The 100,000th".to_string());
    assert_eq!(
        line.unwrap(),
        "[proglog] Processed 100_000 records: The 100,000th"
    );
}

#[test]
fn test_log_messages() {
    simple_case();
    threaded_case();
    messages_simple();
    messages_simple_verify_unit();
    messages_threaded();
    messages_threaded_with_extra();
    pretty_counts();
}

#[test]
fn nth_record_emits_on_multiples_of_unit() {
    let log = ProgLogBuilder::new().unit(3).build().unwrap();
    for n in 1..=10u64 {
        let line = log.record();
        assert_eq!(line.is_some(), n % 3 == 0);
        assert_eq!(log.seen(), n);
    }
}

#[test]
fn flush_reports_unreported_progress_once() {
    let log = ProgLogBuilder::new().unit(10).build().unwrap();
    for _ in 0..7 {
        assert_eq!(log.record(), None);
    }
    assert_eq!(log.flush(), Some("[proglog] Processed 7 records".to_string()));
    assert_eq!(log.flush(), None);
    assert_eq!(log.seen(), 7);
}

#[test]
fn flush_after_more_records_reports_again() {
    let log = ProgLogBuilder::new().unit(10).build().unwrap();
    for _ in 0..7 {
        log.record();
    }
    assert!(log.flush().is_some());
    log.record();
    assert_eq!(log.flush(), Some("[proglog] Processed 8 records".to_string()));
}

#[test]
fn flush_on_boundary_emits_nothing() {
    let log = ProgLogBuilder::new().unit(5).build().unwrap();
    for _ in 0..10 {
        log.record();
    }
    assert_eq!(log.flush(), None);
    assert_eq!(log.flush_with(|| "extra".to_string()), None);
}

#[test]
fn flush_on_fresh_counter_emits_nothing() {
    let log = ProgLogBuilder::new().build().unwrap();
    assert_eq!(log.flush(), None);
    assert_eq!(log.seen(), 0);
}

#[test]
fn concurrent_records_lose_no_update() {
    let log = ProgLogBuilder::new().unit(7).build().unwrap();
    let lines = record_in_threads(&log, 4, 1000);
    assert_eq!(log.seen(), 4000);
    assert_eq!(lines.len(), 4000 / 7);
}

#[test]
fn supplier_called_only_when_emitting() {
    let log = ProgLogBuilder::new().unit(4).build().unwrap();
    let calls = Cell::new(0u32);
    let mut emitted = 0;
    for _ in 0..10 {
        let line = log.record_with(|| {
            calls.set(calls.get() + 1);
            "tick".to_string()
        });
        if line.is_some() {
            emitted += 1;
        }
    }
    assert_eq!(emitted, 2);
    assert_eq!(calls.get(), 2);
}

#[test]
fn unit_one_line_ends_with_extra() {
    let log = ProgLogBuilder::new().unit(1).build().unwrap();
    let line = log.record_with(|| "This is a test".to_string()).unwrap();
    assert_eq!(line, "[proglog] Processed 1 records: This is a test");
}

#[test]
fn tenth_record_emits_count_ten() {
    let log = ProgLogBuilder::new().unit(10).build().unwrap();
    for _ in 0..9 {
        assert_eq!(log.record_with(|| "x".to_string()), None);
    }
    assert_eq!(
        log.record_with(|| "x".to_string()),
        Some("[proglog] Processed 10 records: x".to_string())
    );
}

#[test]
fn underscore_grouping_of_hundred_thousand() {
    let log = ProgLogBuilder::new()
        .unit(100_000)
        .count_formatter(CountFormatterKind::Underscore)
        .build()
        .unwrap();
    let mut lines = Vec::new();
    for _ in 0..100_000 {
        if let Some(line) = log.record() {
            lines.push(line);
        }
    }
    assert_eq!(lines, vec!["[proglog] Processed 100_000 records".to_string()]);
}

#[test]
fn finishing_after_hundred_and_one_records() {
    let log = ProgLogBuilder::new().unit(100).build().unwrap();
    let mut lines = Vec::new();
    for _ in 0..101 {
        if let Some(line) = log.record() {
            lines.push(line);
        }
    }
    assert_eq!(lines, vec!["[proglog] Processed 100 records".to_string()]);
    assert_eq!(log.flush(), Some("[proglog] Processed 101 records".to_string()));
    assert_eq!(log.flush(), None);
}

#[test]
fn flush_with_appends_extra() {
    let log = ProgLogBuilder::new().unit(10).build().unwrap();
    log.record();
    log.record();
    assert_eq!(
        log.flush_with(|| "done".to_string()),
        Some("[proglog] Processed 2 records: done".to_string())
    );
    assert_eq!(log.flush_with(|| "done".to_string()), None);
}

#[test]
fn zero_unit_is_rejected() {
    assert_eq!(ProgLogBuilder::new().unit(0).build().err(), Some(BuildError::ZeroUnit));
}

#[test]
fn builder_options_shape_the_line() {
    let log = ProgLogBuilder::new()
        .name("rayon-ex")
        .noun("lines")
        .verb("Read")
        .unit(2)
        .level(log::Level::Warn)
        .build()
        .unwrap();
    assert_eq!(log.level(), log::Level::Warn);
    assert_eq!(log.record(), None);
    assert_eq!(log.record(), Some("[rayon-ex] Read 2 lines".to_string()));
}

#[test]
fn builder_defaults() {
    let log = ProgLogBuilder::new().build().unwrap();
    assert_eq!(log.level(), DEFAULT_LEVEL);
    assert_eq!(log.level(), log::Level::Info);
    assert_eq!(DEFAULT_UNIT, 100_000);
    assert_eq!(log.log_it(5), "[proglog] Processed 5 records");
}

#[test]
fn direct_construction() {
    let log = ProgLog::new(
        "n".to_string(),
        "items".to_string(),
        "Saw".to_string(),
        3,
        log::Level::Debug,
        CountFormatterKind::Comma,
    );
    assert_eq!(log.log_it(1234567), "[n] Saw 1,234,567 items");
    assert_eq!(log.log_it_with("x", 12), "[n] Saw 12 items: x");
    assert!(log.record_due(3));
    assert!(!log.record_due(4));
    assert!(log.flush_due(4, 0));
    assert!(!log.flush_due(4, 4));
    assert!(!log.flush_due(6, 0));
}

#[test]
fn decimal_rendering() {
    assert_eq!(to_decimal(0), "0");
    assert_eq!(to_decimal(7), "7");
    assert_eq!(to_decimal(1_234_567_890), "1234567890");
    assert_eq!(to_decimal(u64::MAX), "18446744073709551615");
}

#[test]
fn formatter_kinds() {
    assert_eq!(CountFormatterKind::Comma.fmt(1234567), "1,234,567");
    assert_eq!(CountFormatterKind::Dot.fmt(1234567), "1.234.567");
    assert_eq!(CountFormatterKind::Space.fmt(1234567), "1 234 567");
    assert_eq!(CountFormatterKind::Underscore.fmt(100_000), "100_000");
    assert_eq!(CountFormatterKind::HexFour.fmt(1234567), "123 4567");
    assert_eq!(CountFormatterKind::Nothing.fmt(1234567), "1234567");
    assert_eq!(CountFormatterKind::Comma.fmt(999), "999");
}

#[test]
fn step_functions_decide_from_given_values() {
    let log = ProgLogBuilder::new().unit(10).build().unwrap();
    assert_eq!(log.record_at(9), Some("[proglog] Processed 10 records".to_string()));
    assert_eq!(log.record_at(10), None);
    assert_eq!(log.record_at(u64::MAX), Some("[proglog] Processed 0 records".to_string()));
    assert_eq!(
        log.record_with_at(19, || "x".to_string()),
        Some("[proglog] Processed 20 records: x".to_string())
    );
    assert_eq!(log.record_with_at(0, || "x".to_string()), None);
    assert_eq!(log.flush_at(7, 0), Some("[proglog] Processed 7 records".to_string()));
    assert_eq!(log.flush_at(7, 7), None);
    assert_eq!(log.flush_at(20, 0), None);
    assert_eq!(
        log.flush_with_at(13, 7, || "y".to_string()),
        Some("[proglog] Processed 13 records: y".to_string())
    );
    assert_eq!(log.flush_with_at(13, 13, || "y".to_string()), None);
    assert_eq!(log.seen(), 0);
}

#[test]
fn defaults_by_trait() {
    let log = ProgLog::default();
    assert_eq!(log.level(), log::Level::Info);
    assert_eq!(log.log_it(3), "[proglog] Processed 3 records");
    assert!(log.record_due(100_000));
    assert!(!log.record_due(99_999));
    let built = ProgLogBuilder::default().build().unwrap();
    assert_eq!(built.log_it(3), "[proglog] Processed 3 records");
    assert!(built.record_due(200_000));
}

#[test]
fn hex_four_grouping() {
    assert_eq!(CountFormatterKind::HexFour.fmt(1234), "1234");
    assert_eq!(CountFormatterKind::HexFour.fmt(123456789), "1 2345 6789");
    assert_eq!(CountFormatterKind::Dot.fmt(0), "0");
}
