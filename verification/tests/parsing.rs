//! Text parsing: menu buttons, size strings, ANSI stripping and progress
//! lines.

use clipflow::ui::{
    is_menu_button, is_system_button, BTN_ADMIN_PANEL, BTN_BACK, BTN_FORMAT, BTN_SETTINGS,
    BTN_SUBSCRIPTION,
};
use clipflow::fetcher::{parse_progress_line, parse_size_string, remove_ansi_codes};

#[test]
fn test_is_menu_button() {
    assert!(is_menu_button(BTN_ADMIN_PANEL));
    assert!(is_menu_button(BTN_SETTINGS));
    assert!(is_menu_button(BTN_FORMAT));
    assert!(is_menu_button(BTN_SUBSCRIPTION));
    assert!(is_menu_button(BTN_BACK));
    assert!(!is_menu_button("some other text"));
}

#[test]
fn test_system_buttons() {
    assert!(is_system_button(BTN_SETTINGS));
    assert!(is_system_button("h265"));
    assert!(is_system_button("h264"));
    assert!(is_system_button("audio"));
    assert!(is_system_button("\u{1f4e2} Broadcast"));
    assert!(!is_system_button("h263"));
    assert!(!is_system_button("some other text"));
}

#[test]
fn test_parse_size_string_mb() {
    // MB is 1000^2, not 1024^2 (MiB)
    assert_eq!(parse_size_string("10.0MB"), 10_000_000); // 10.0 * 1000^2
    assert_eq!(parse_size_string("5.0MB"), 5_000_000); // 5.0 * 1000^2
}

#[test]
fn test_parse_size_string_gb() {
    assert_eq!(parse_size_string("1.0GB"), 1_000_000_000); // 1.0 * 1000^3
}

#[test]
fn test_parse_size_string_binary_units() {
    assert_eq!(parse_size_string("10.00MiB"), 10 * 1024 * 1024);
    assert_eq!(parse_size_string("1.0GiB"), 1024 * 1024 * 1024);
    assert_eq!(parse_size_string("  2.5MiB "), 2 * 1024 * 1024);
}

#[test]
fn test_parse_size_string_plain_and_bad() {
    assert_eq!(parse_size_string("123B"), 123);
    assert_eq!(parse_size_string("123"), 123);
    // text without a number counts as one unit
    assert_eq!(parse_size_string("abcMB"), 1_000_000);
    assert_eq!(parse_size_string(""), 1);
}

#[test]
fn test_remove_ansi_codes() {
    let input = "\x1B[31mRed text\x1B[0m";
    let result = remove_ansi_codes(input);
    assert_eq!(result, "Red text");
}

#[test]
fn test_parse_progress_line() {
    let line = "[download]  50.0% of 10.00MiB";
    let result = parse_progress_line(line);
    assert!(result.is_some());
    let (tenths, total_size) = result.unwrap();
    assert_eq!(tenths as f64 / 10.0, 50.0);
    assert_eq!(total_size, 10_485_760); // 10 MiB
}

#[test]
fn test_parse_progress_line_estimate_and_bare() {
    let line = "[download]  12.5% of ~3.0MB";
    let (tenths, total) = parse_progress_line(line).unwrap();
    assert_eq!(tenths, 125);
    assert_eq!(total, 3_000_000);

    // a bare percentage is reported against the assumed default size
    let (tenths, total) = parse_progress_line("progress 45% done").unwrap();
    assert_eq!(tenths, 450);
    assert_eq!(total, 10_485_760);

    assert!(parse_progress_line("no progress here").is_none());
}

#[test]
fn test_parse_progress_line_colored() {
    let line = "\x1B[32m[download]   7.3% of 2.00MiB\x1B[0m";
    let (tenths, total) = parse_progress_line(line).unwrap();
    assert_eq!(tenths, 73);
    assert_eq!(total, 2 * 1024 * 1024);
}
