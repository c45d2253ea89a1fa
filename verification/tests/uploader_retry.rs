//! The persistent client's retry wrapper and the retry rounds.

use clipflow::classify::{capped_flood_sleep, classify_download_error, extract_flood_wait, FailureKind};
use clipflow::retry::{
    backoff_delay_ms, run_download_attempts, run_send_attempts, DownloadAttempt, DownloadVerdict,
    SendAttempt,
};
use clipflow::uploader::{keepalive_due, keepalive_wants_reconnect, with_reconnect_retry, OpOutcome, UploadRunResult};

#[test]
fn reconnect_then_success_within_bound() {
    // a transport error triggers reconnection; once repaired, the retried
    // operation succeeds within the three-attempt bound
    let ops = vec![
        OpOutcome::Failed { message: "read 0 bytes".to_string() },
        OpOutcome::Succeeded,
        OpOutcome::Succeeded,
    ];
    let rec = vec![true, true, true];
    let r = with_reconnect_retry(&ops, &rec);
    assert!(matches!(r.outcome, UploadRunResult::Done { attempts_used: 2 }));
    assert_eq!(r.reconnects, 1);
    // a short pause follows the successful repair
    assert_eq!(r.slept_units, 2);
}

#[test]
fn other_errors_surface_immediately() {
    let ops = vec![
        OpOutcome::Failed { message: "PEER_ID_INVALID".to_string() },
        OpOutcome::Succeeded,
        OpOutcome::Succeeded,
    ];
    let rec = vec![true, true, true];
    let r = with_reconnect_retry(&ops, &rec);
    match r.outcome {
        UploadRunResult::Surfaced { message } => assert_eq!(message, "PEER_ID_INVALID"),
        other => panic!("unexpected outcome: {:?}", other),
    }
    assert_eq!(r.reconnects, 0);
}

#[test]
fn flood_wait_sleeps_then_retries() {
    let ops = vec![
        OpOutcome::Failed { message: "FLOOD_WAIT_45".to_string() },
        OpOutcome::Succeeded,
        OpOutcome::Succeeded,
    ];
    let rec = vec![true, true, true];
    let r = with_reconnect_retry(&ops, &rec);
    assert!(matches!(r.outcome, UploadRunResult::Done { attempts_used: 2 }));
    // the demanded 45 units are honoured only up to the cap
    assert_eq!(r.slept_units, 30);
}

#[test]
fn retries_exhaust() {
    let ops = vec![
        OpOutcome::Failed { message: "ConnectionReset".to_string() },
        OpOutcome::Failed { message: "Connection lost".to_string() },
        OpOutcome::Failed { message: "read 0 bytes".to_string() },
    ];
    let rec = vec![true, true, true];
    let r = with_reconnect_retry(&ops, &rec);
    assert!(matches!(r.outcome, UploadRunResult::ExhaustedRetries));
    assert_eq!(r.reconnects, 3);
}

#[test]
fn failed_repair_on_last_attempt_surfaces() {
    let ops = vec![
        OpOutcome::Failed { message: "read 0 bytes".to_string() },
        OpOutcome::Failed { message: "read 0 bytes".to_string() },
        OpOutcome::Failed { message: "read 0 bytes".to_string() },
    ];
    let rec = vec![true, true, false];
    let r = with_reconnect_retry(&ops, &rec);
    assert!(matches!(r.outcome, UploadRunResult::SurfacedAfterRepairFailure { .. }));
}

#[test]
fn flood_wait_extraction() {
    assert_eq!(extract_flood_wait("rpc error: FLOOD_WAIT_45 (caused by...)"), Some(45));
    assert_eq!(extract_flood_wait("FLOOD_WAIT_X then FLOOD_WAIT_7"), Some(7));
    assert_eq!(extract_flood_wait("all quiet"), None);
    assert_eq!(extract_flood_wait("FLOOD_WAIT_99999999999999999999999"), None);
    assert_eq!(capped_flood_sleep(45), 30);
    assert_eq!(capped_flood_sleep(7), 7);
}

#[test]
fn backoff_doubles_and_caps() {
    assert_eq!(backoff_delay_ms(1), 1_000);
    assert_eq!(backoff_delay_ms(2), 2_000);
    assert_eq!(backoff_delay_ms(5), 16_000);
    assert_eq!(backoff_delay_ms(6), 30_000);
    assert_eq!(backoff_delay_ms(20), 30_000);
}

#[test]
fn download_round_takes_first_success() {
    let attempts = vec![
        DownloadAttempt::TimedOut,
        DownloadAttempt::Completed { path: "downloads/a.mp4".to_string(), size: 9 },
        DownloadAttempt::TimedOut,
    ];
    let r = run_download_attempts(&attempts);
    match r.verdict {
        DownloadVerdict::Got { path, size } => {
            assert_eq!(path, "downloads/a.mp4");
            assert_eq!(size, 9);
        },
        other => panic!("wrong round result: {:?}", other),
    }
    assert_eq!(r.slept_ms, 1_000);
}

#[test]
fn download_round_classifies_last_failure() {
    let attempts = vec![
        DownloadAttempt::TimedOut,
        DownloadAttempt::TimedOut,
        DownloadAttempt::Errored { message: "This video is age-restricted".to_string() },
    ];
    let r = run_download_attempts(&attempts);
    match r.verdict {
        DownloadVerdict::Failed { kind, .. } => assert_eq!(kind, FailureKind::AgeRestricted),
        other => panic!("wrong round result: {:?}", other),
    }
    assert_eq!(r.slept_ms, 3_000);
}

#[test]
fn send_round_counts_sleeps() {
    let attempts = vec![SendAttempt::TimedOut, SendAttempt::TimedOut, SendAttempt::Sent];
    let r = run_send_attempts(&attempts);
    assert!(r.delivered);
    assert_eq!(r.slept_ms, 3_000);
    let attempts = vec![SendAttempt::TimedOut, SendAttempt::TimedOut, SendAttempt::TimedOut];
    let r = run_send_attempts(&attempts);
    assert!(!r.delivered);
}

#[test]
fn failure_text_classification() {
    assert_eq!(classify_download_error("ERROR: Sign in required"), FailureKind::SignInRequired);
    assert_eq!(classify_download_error("Video unavailable"), FailureKind::Unavailable);
    assert_eq!(
        classify_download_error("Requested format is not available"),
        FailureKind::Unavailable
    );
    assert_eq!(classify_download_error("Private video"), FailureKind::Private);
    assert_eq!(
        classify_download_error("This video is age-restricted"),
        FailureKind::AgeRestricted
    );
    assert_eq!(classify_download_error("Failed to parse data"), FailureKind::MalformedResponse);
    assert_eq!(classify_download_error("bad JSON body"), FailureKind::MalformedResponse);
    assert_eq!(classify_download_error("connect timeout"), FailureKind::Timeout);
    assert_eq!(classify_download_error("mysterious"), FailureKind::Generic);
}

#[test]
fn keepalive_schedule() {
    assert!(!keepalive_due(1_000, 1_200));
    assert!(keepalive_due(1_000, 1_300));
    assert!(keepalive_due(1_000, 5_000));
    assert!(!keepalive_wants_reconnect(true));
    assert!(keepalive_wants_reconnect(false));
}
