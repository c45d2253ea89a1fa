//! The progress reporter's throttling, invalidation handling and rendering.

use clipflow::progress::ProgressBar;

#[test]
fn throttle_emits_big_jumps_and_completion_only() {
    let mut bar = ProgressBar::new(42);
    bar.start(900, 0);
    // establish a rendered baseline of 10 percent
    assert!(bar.update(10, 4_000));
    // the burst [10, 12, 14, 20, 100], each arriving after the minimum
    // interval: sub-threshold deltas are suppressed, 20 and 100 go out
    assert!(!bar.update(10, 8_000));
    assert!(!bar.update(12, 12_000));
    assert!(!bar.update(14, 16_000));
    assert!(bar.update(20, 20_000));
    assert!(bar.update(100, 24_000));
}

#[test]
fn throttle_holds_inside_the_window() {
    let mut bar = ProgressBar::new(42);
    bar.start(900, 0);
    assert!(bar.update(10, 4_000));
    // a big jump arriving 1s after the previous render still waits
    assert!(!bar.update(90, 5_000));
    // completion too waits out the minimum interval...
    assert!(!bar.update(100, 5_500));
    // ...and goes out once it has passed, with no jump demanded
    assert!(bar.update(100, 7_000));
}

#[test]
fn first_update_always_renders() {
    let mut bar = ProgressBar::new(42);
    assert!(bar.update(1, 0));
}

#[test]
fn invalidated_message_is_replaced_before_completion() {
    let mut bar = ProgressBar::new(42);
    bar.start(900, 0);
    assert_eq!(bar.message_id, Some(900));
    // an unrelated failure changes nothing
    assert!(!bar.on_edit_failed("network hiccup", 40));
    assert_eq!(bar.message_id, Some(900));
    // an invalidated message is dropped and, mid-task, replaced
    assert!(bar.on_edit_failed("MESSAGE_ID_INVALID", 40));
    assert_eq!(bar.message_id, None);
    bar.attach_message(901);
    assert_eq!(bar.message_id, Some(901));
    // at completion no replacement is made
    assert!(!bar.on_edit_failed("message to edit not found", 100));
    assert_eq!(bar.message_id, None);
}

#[test]
fn delete_hands_back_the_handle_once() {
    let mut bar = ProgressBar::new(42);
    bar.start(900, 0);
    assert_eq!(bar.delete(), Some(900));
    assert_eq!(bar.delete(), None);
}

#[test]
fn renders_bar_text() {
    let bar = ProgressBar::new(42);
    let text = bar.create_progressbar(50, None);
    assert_eq!(
        text,
        "\u{1f504} Processing 50% \u{2593}\u{2588}\u{2588}\u{2588}\u{2588}\u{2588}\u{2588}\u{2588}\u{2588}\u{2588}\u{2588}\u{2591}\u{2591}\u{2591}\u{2591}\u{2591}\u{2591}\u{2591}\u{2591}\u{2591}\u{2591}\u{2593}"
    );
    let with_info = bar.create_progressbar(100, Some("done"));
    assert!(with_info.starts_with("\u{1f504} Processing 100% \u{2593}"));
    assert!(with_info.ends_with("\u{2593}\ndone"));
}
