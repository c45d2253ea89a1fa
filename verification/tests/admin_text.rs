//! Administrator parsing, settings toggles, fingerprint listings, archive
//! entry selection and broadcast pacing.

use clipflow::admin::{
    is_admin, parse_admin_ids, split_channel_arg, subscription_required_from,
    toggle_subscription_value,
};
use clipflow::binaries::{
    wanted_macos_entry, wanted_unix_entry, wanted_windows_entry, BinaryKind,
};
use clipflow::broadcast::{broadcast_pause_needed, BroadcastState, BroadcastTally};
use clipflow::commands::{AdminCommand, Command};
use clipflow::fingerprint::{fingerprint_is_valid, parse_impersonate_targets};

#[test]
fn admin_ids_parse_with_noise() {
    let ids = parse_admin_ids("123, 456,abc, -7,,99x");
    assert_eq!(ids, vec![123, 456, -7]);
    assert!(is_admin(&ids, 456));
    assert!(!is_admin(&ids, 9));
    assert_eq!(parse_admin_ids(""), Vec::<i64>::new());
    // an identity too large for the type is skipped
    assert_eq!(parse_admin_ids("99999999999999999999999"), Vec::<i64>::new());
}

#[test]
fn channel_argument_splits_once() {
    assert_eq!(
        split_channel_arg("-100123 My Channel"),
        Some(("-100123".to_string(), "My Channel".to_string()))
    );
    assert_eq!(split_channel_arg("justoneword"), None);
}

#[test]
fn subscription_setting_rules() {
    assert!(!toggle_subscription_value("true"));
    assert!(toggle_subscription_value("false"));
    assert!(toggle_subscription_value("TRUE"));
    let v = "true".to_string();
    assert!(subscription_required_from(Some(&v)));
    let v = "false".to_string();
    assert!(!subscription_required_from(Some(&v)));
    // a missing setting defaults to requiring the subscription
    assert!(subscription_required_from(None));
}

#[test]
fn fingerprint_listing_parses() {
    let listing = "\
Available targets\n\
Client OS Source\n\
------\n\
chrome 110 curl-cffi\n\
Safari - curl-cffi\n\
edge 99 unavailable\n\
short\n";
    let targets = parse_impersonate_targets(listing);
    assert_eq!(
        targets,
        vec![
            ("chrome:110".to_string(), "chrome:110 curl-cffi".to_string()),
            ("safari".to_string(), "Safari curl-cffi".to_string()),
        ]
    );
    assert!(fingerprint_is_valid(&targets, "Chrome:110"));
    assert!(fingerprint_is_valid(&targets, "safari"));
    assert!(!fingerprint_is_valid(&targets, "edge:99"));
}

#[test]
fn archive_entries_are_selected() {
    assert_eq!(wanted_windows_entry("bin/ffmpeg.exe"), Some(BinaryKind::Ffmpeg));
    assert_eq!(wanted_windows_entry("bin/ffprobe.exe"), Some(BinaryKind::Ffprobe));
    assert_eq!(wanted_windows_entry("readme.txt"), None);
    assert_eq!(wanted_unix_entry("pkg/bin/ffmpeg"), Some(BinaryKind::Ffmpeg));
    assert_eq!(wanted_unix_entry("pkg/bin/ffprobe"), Some(BinaryKind::Ffprobe));
    assert_eq!(wanted_unix_entry("pkg/bin/ffmpeg.1"), None);
    assert_eq!(wanted_macos_entry("FFmpeg-6.0"), Some(BinaryKind::Ffmpeg));
    assert_eq!(wanted_macos_entry("FFprobe-6.0"), Some(BinaryKind::Ffprobe));
    assert_eq!(wanted_macos_entry("license"), None);
}

#[test]
fn broadcast_pacing_and_tally() {
    assert!(!broadcast_pause_needed(0));
    assert!(!broadcast_pause_needed(24));
    assert!(broadcast_pause_needed(25));
    assert!(!broadcast_pause_needed(26));
    assert!(broadcast_pause_needed(50));
    let mut tally = BroadcastTally::new();
    tally.count(true);
    tally.count(false);
    tally.count(true);
    assert_eq!(tally.sent, 2);
    assert_eq!(tally.failed, 1);
    assert!(matches!(BroadcastState::default(), BroadcastState::Idle));
}

#[test]
fn command_vocabulary_round_trips() {
    let c = Command::Start;
    assert_eq!(c, Command::Start);
    assert_ne!(Command::Help, Command::Start);
    let a = AdminCommand::AddChannel { id_name: "-1 general".to_string() };
    assert!(matches!(a, AdminCommand::AddChannel { .. }));
    assert_eq!(AdminCommand::ListChannels, AdminCommand::ListChannels);
}
