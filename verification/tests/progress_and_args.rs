use pv::cli::{parse_block_size, InputSource};
use pv::progress::ProgressTracker;

#[test]
fn renders_at_most_once_per_threshold() {
    // Threshold 200 ms: however many cycles report, a render fires only once
    // the gap since the last render reaches 200 ms.
    let mut tracker = ProgressTracker::new(200);
    assert!(tracker.update_status(100, 0).is_none()); // zero-length interval
    assert!(tracker.update_status(100, 50).is_none());
    assert!(tracker.update_status(100, 199).is_none());
    let first = tracker.update_status(100, 200).expect("threshold reached");
    // 400 bytes over 200 ms = 2000 bytes/s
    assert_eq!(first.bytes_per_sec, 2000);
    assert!(tracker.update_status(500, 250).is_none());
    assert!(tracker.update_status(500, 399).is_none());
    let second = tracker.update_status(0, 400).expect("threshold reached again");
    // 1000 bytes over the 200 ms since the first render = 5000 bytes/s
    assert_eq!(second.bytes_per_sec, 5000);
}

#[test]
fn percentage_needs_a_known_size() {
    // With no total size established, status reports throughput only.
    let mut unknown = ProgressTracker::new(100);
    let st = unknown.update_status(300, 100).expect("render");
    assert_eq!(st.bytes_per_sec, 3000);
    assert!(st.percent.is_none());

    // With a declared size, the same figures carry a percentage.
    let mut known = ProgressTracker::new(100);
    known.set_size(1200);
    let st = known.update_status(300, 100).expect("render");
    assert_eq!(st.bytes_per_sec, 3000);
    assert_eq!(st.percent, Some(25));
}

#[test]
fn percentage_is_clamped_to_100() {
    let mut tracker = ProgressTracker::new(10);
    tracker.set_size(50);
    let st = tracker.update_status(80, 10).expect("render");
    assert_eq!(st.percent, Some(100));
}

#[test]
fn zero_interval_never_divides() {
    // Threshold 0 would allow a render on every call, but a zero-length
    // interval is skipped rather than divided by.
    let mut tracker = ProgressTracker::new(0);
    assert!(tracker.update_status(500, 0).is_none());
    let st = tracker.update_status(500, 1).expect("render");
    assert_eq!(st.bytes_per_sec, 1_000_000);
}

#[test]
fn lifetime_counter_spans_renders() {
    let mut tracker = ProgressTracker::new(100);
    tracker.set_size(1000);
    let _ = tracker.update_status(250, 100).expect("render");
    let st = tracker.update_status(250, 200).expect("render");
    // 500 of 1000 lifetime bytes.
    assert_eq!(st.percent, Some(50));
    // Throughput counts only the bytes since the previous render.
    assert_eq!(st.bytes_per_sec, 2500);
}

#[test]
fn block_size_parses_digits_only() {
    assert_eq!(parse_block_size(b"512"), Some(512));
    assert_eq!(parse_block_size(b"1"), Some(1));
    assert_eq!(parse_block_size(b"4096"), Some(4096));
}

#[test]
fn block_size_rejects_bad_text() {
    assert_eq!(parse_block_size(b"abc"), None);
    assert_eq!(parse_block_size(b""), None);
    assert_eq!(parse_block_size(b"0"), None);
    assert_eq!(parse_block_size(b"12x"), None);
    assert_eq!(parse_block_size(b"-5"), None);
    assert_eq!(parse_block_size(b" 512"), None);
    // far beyond any usize
    assert_eq!(parse_block_size(b"99999999999999999999999999999999"), None);
}

#[test]
fn source_size_is_declared_only_for_regular_files() {
    let file = InputSource::RegularFile { declared_len: Some(4096) };
    assert_eq!(file.known_size(), Some(4096));
    let odd = InputSource::RegularFile { declared_len: None };
    assert_eq!(odd.known_size(), None);
    let stdin = InputSource::StandardInput;
    assert_eq!(stdin.known_size(), None);
}
