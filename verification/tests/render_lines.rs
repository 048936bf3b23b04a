use pv::progress::Render;
use pv::render::{done_line, status_line, u64_to_dec};

#[test]
fn decimal_digits_are_exact() {
    assert_eq!(u64_to_dec(0), b"0");
    assert_eq!(u64_to_dec(7), b"7");
    assert_eq!(u64_to_dec(10), b"10");
    assert_eq!(u64_to_dec(512), b"512");
    assert_eq!(u64_to_dec(1000), b"1000");
    assert_eq!(u64_to_dec(u64::MAX), b"18446744073709551615");
}

#[test]
fn status_line_without_percentage() {
    let st = Render { bytes_per_sec: 1000, percent: None };
    let line = status_line(&st);
    let mut expected = b"\rspeed: 1000 bytes/s".to_vec();
    while expected.len() < 82 {
        expected.push(b' ');
    }
    assert_eq!(line, expected);
}

#[test]
fn status_line_with_percentage() {
    let st = Render { bytes_per_sec: 2500, percent: Some(50) };
    let line = status_line(&st);
    let mut expected = b"\rspeed: 2500 bytes/s processed: 50 %".to_vec();
    while expected.len() < 82 {
        expected.push(b' ');
    }
    assert_eq!(line, expected);
}

#[test]
fn status_lines_overwrite_each_other() {
    // Every status line is the same width, so a later, shorter status fully
    // overwrites an earlier, longer one on the terminal.
    let long = status_line(&Render { bytes_per_sec: 123456789, percent: Some(100) });
    let short = status_line(&Render { bytes_per_sec: 5, percent: None });
    assert_eq!(long.len(), short.len());
    assert_eq!(long.len(), 82);
}

#[test]
fn done_line_reports_elapsed_millis() {
    assert_eq!(done_line(1234), b"Done! use 1234 msec");
    assert_eq!(done_line(0), b"Done! use 0 msec");
}
