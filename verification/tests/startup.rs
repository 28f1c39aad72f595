//! Startup argument parsing and the poll producer's decision.

use kmon::event::{parse_interval, poll_event, Event, DEFAULT_REFRESH_RATE_MS};

#[test]
fn default_rate_is_250ms() {
    assert_eq!(DEFAULT_REFRESH_RATE_MS, 250);
}

#[test]
fn parse_interval_accepts_positive_decimals() {
    assert_eq!(parse_interval(b"250"), Some(250));
    assert_eq!(parse_interval(b"1"), Some(1));
    assert_eq!(parse_interval(b"007"), Some(7));
    assert_eq!(parse_interval(b"18446744073709551615"), Some(u64::MAX));
}

#[test]
fn parse_interval_rejects_bad_input() {
    assert_eq!(parse_interval(b""), None);
    assert_eq!(parse_interval(b"0"), None);
    assert_eq!(parse_interval(b"00"), None);
    assert_eq!(parse_interval(b"12a"), None);
    assert_eq!(parse_interval(b"-5"), None);
    assert_eq!(parse_interval(b" 250"), None);
    assert_eq!(parse_interval(b"18446744073709551616"), None);
    assert_eq!(parse_interval(b"999999999999999999999999"), None);
}

#[test]
fn poll_wake_with_content_is_a_kernel_event() {
    match poll_event(Some("usbcore: registered new device".to_string())) {
        Event::Kernel(text) => assert_eq!(text, "usbcore: registered new device"),
        _ => panic!("expected a kernel event"),
    }
}

#[test]
fn poll_wake_without_content_is_a_tick() {
    match poll_event(None) {
        Event::Tick => {},
        _ => panic!("expected a tick"),
    }
}
