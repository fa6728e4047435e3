use socket_harness::outcome::Outcome;
use socket_harness::report::{join_lines, Report};

#[test]
fn new_report_is_empty_and_ok() {
    let report = Report::new();
    assert_eq!(report.len(), 0);
    assert!(report.lines().is_empty());
    assert!(!report.any_failed());
    assert!(report.ok());
    assert_eq!(report.status_code(), 200);
    assert_eq!(report.body(), "");
}

#[test]
fn record_returns_the_line_it_appends() {
    let mut report = Report::new();
    let line = report.record("NO_SSL", &Outcome::Success);
    assert_eq!(line, "[SUCCESS] NO_SSL");
    assert_eq!(report.len(), 1);
    assert_eq!(report.lines(), &vec!["[SUCCESS] NO_SSL".to_string()]);
    assert_eq!(report.body(), "[SUCCESS] NO_SSL");
}

#[test]
fn lines_keep_the_order_of_recording() {
    let mut report = Report::new();
    report.record("b", &Outcome::Success);
    report.record("a", &Outcome::TimedOut);
    report.record("c", &Outcome::Failure("why".to_string()));
    assert_eq!(
        report.lines(),
        &vec![
            "[SUCCESS] b".to_string(),
            "[FAILED] a: Timed out!".to_string(),
            "[FAILED] c: why".to_string(),
        ]
    );
    assert_eq!(report.body(), "[SUCCESS] b\n[FAILED] a: Timed out!\n[FAILED] c: why");
    assert_eq!(report.len(), 3);
}

#[test]
fn failure_flag_is_the_or_of_the_outcomes() {
    let mut report = Report::new();
    report.record("one", &Outcome::Success);
    assert!(!report.any_failed());
    assert_eq!(report.status_code(), 200);
    report.record("two", &Outcome::Failure("x".to_string()));
    assert!(report.any_failed());
    assert!(!report.ok());
    assert_eq!(report.status_code(), 500);
    report.record("three", &Outcome::Success);
    assert!(report.any_failed());
    assert_eq!(report.status_code(), 500);
}

#[test]
fn timeout_alone_fails_the_run() {
    let mut report = Report::new();
    report.record("slow", &Outcome::TimedOut);
    assert!(report.any_failed());
    assert_eq!(report.status_code(), 500);
}

#[test]
fn same_name_recorded_twice_gives_two_lines() {
    let mut report = Report::new();
    report.record("x", &Outcome::Success);
    report.record("x", &Outcome::Success);
    assert_eq!(report.body(), "[SUCCESS] x\n[SUCCESS] x");
}

#[test]
fn join_puts_a_line_feed_between_neighbours_only() {
    assert_eq!(join_lines(&vec![]), "");
    assert_eq!(join_lines(&vec!["a".to_string()]), "a");
    assert_eq!(join_lines(&vec!["a".to_string(), "b".to_string()]), "a\nb");
    assert_eq!(
        join_lines(&vec!["".to_string(), "".to_string(), "".to_string()]),
        "\n\n"
    );
    assert_eq!(join_lines(&vec!["a\n".to_string(), "b".to_string()]), "a\n\nb");
}
