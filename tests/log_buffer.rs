use bonsai::log_capture::{format_log_line, trim_quotes, LogCapture, LogCaptureLayer};

fn lines(n: usize) -> Vec<String> {
    (0..n).map(|i| format!("line {i}")).collect()
}

#[test]
fn buffer_keeps_the_newest_lines_up_to_capacity() {
    let mut capture = LogCapture::new(3);
    for line in lines(5) {
        capture.add_log(line);
    }
    assert_eq!(capture.get_logs(), vec!["line 2", "line 3", "line 4"]);
    assert_eq!(capture.get_logs().len(), 3);
}

#[test]
fn buffer_below_capacity_keeps_everything_in_order() {
    let mut capture = LogCapture::new(10);
    for line in lines(4) {
        capture.add_log(line);
    }
    assert_eq!(capture.get_logs(), lines(4));
}

#[test]
fn buffer_of_zero_capacity_stays_empty() {
    let mut capture = LogCapture::new(0);
    capture.add_log("lost".to_string());
    assert!(capture.get_logs().is_empty());
    assert_eq!(capture.version(), 1);
}

#[test]
fn version_moves_on_every_mutation_and_only_then() {
    let mut capture = LogCapture::new(2);
    assert_eq!(capture.version(), 0);
    capture.add_log("a".to_string());
    assert_eq!(capture.version(), 1);
    assert_eq!(capture.version(), 1);
    let _ = capture.get_logs();
    assert_eq!(capture.version(), 1);
    capture.add_log("b".to_string());
    capture.add_log("c".to_string());
    assert_eq!(capture.version(), 3);
    capture.clear();
    assert_eq!(capture.version(), 4);
    assert!(capture.get_logs().is_empty());
    capture.clear();
    assert_eq!(capture.version(), 5);
}

#[test]
fn layer_formats_and_appends_events() {
    let mut layer = LogCaptureLayer::new(LogCapture::new(5));
    layer.on_event("12:30:05", "INFO", "node started");
    assert_eq!(layer.capture.get_logs(), vec!["[12:30:05] INFO node started"]);
    assert_eq!(layer.capture.version(), 1);
    assert_eq!(format_log_line("t", "WARN", ""), "[t] WARN ");
}

#[test]
fn quotes_are_trimmed_at_both_ends() {
    assert_eq!(trim_quotes("\"hello\""), "hello");
    assert_eq!(trim_quotes("\"\"a \"b\"\"\""), "a \"b");
    assert_eq!(trim_quotes("plain"), "plain");
    assert_eq!(trim_quotes("\"\"\""), "");
    assert_eq!(trim_quotes(""), "");
}
