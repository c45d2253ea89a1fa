//! Whole-task runs through the orchestrator: outcomes, notices, transport
//! routing, and the balance of claims and releases.

use clipflow::classify::FailureKind;
use clipflow::pipeline::{
    link_handler, run_task_batch, select_transport, Governor, TaskCase, TaskEnv, TaskOutcome,
    TaskRequest, Transport, TELEGRAM_BOT_API_FILE_LIMIT,
};
use clipflow::retry::{DownloadAttempt, SendAttempt};
use clipflow::uploader::OpOutcome;

fn request(text: &str) -> TaskRequest {
    TaskRequest { chat_id: 42, text: text.to_string(), username: None, now_ms: 10_000 }
}

fn open_env() -> TaskEnv {
    TaskEnv {
        quality: "best".to_string(),
        subscription_required: false,
        is_admin: false,
        is_subscribed: false,
    }
}

fn completed(size: u64) -> Vec<DownloadAttempt> {
    vec![
        DownloadAttempt::Completed { path: "downloads/out.mp4".to_string(), size },
        DownloadAttempt::TimedOut,
        DownloadAttempt::TimedOut,
    ]
}

fn all_failed(message: &str) -> Vec<DownloadAttempt> {
    vec![
        DownloadAttempt::Errored { message: message.to_string() },
        DownloadAttempt::Errored { message: message.to_string() },
        DownloadAttempt::Errored { message: message.to_string() },
    ]
}

fn sends_ok() -> Vec<SendAttempt> {
    vec![SendAttempt::Sent, SendAttempt::Sent, SendAttempt::Sent]
}

fn sends_failing() -> Vec<SendAttempt> {
    vec![
        SendAttempt::TimedOut,
        SendAttempt::Errored { message: "boom".to_string() },
        SendAttempt::TimedOut,
    ]
}

#[test]
fn transport_threshold() {
    // exactly the limit stays on the direct transport
    assert_eq!(select_transport(TELEGRAM_BOT_API_FILE_LIMIT), Transport::Direct);
    // one byte over goes to the persistent transport
    assert_eq!(select_transport(TELEGRAM_BOT_API_FILE_LIMIT + 1), Transport::Persistent);
    assert_eq!(TELEGRAM_BOT_API_FILE_LIMIT, 48 * 1024 * 1024);
}

#[test]
fn small_file_routed_direct() {
    let mut gov = Governor::new(2);
    let r = link_handler(
        &mut gov,
        &request("https://www.tiktok.com/@a/video/1"),
        &open_env(),
        &completed(TELEGRAM_BOT_API_FILE_LIMIT),
        &OpOutcome::Succeeded,
        &sends_ok(),
    );
    assert!(matches!(r.outcome, TaskOutcome::Delivered { transport: Transport::Direct }));
    assert!(r.notice.is_none());
    assert_eq!(r.removed_file.as_deref(), Some("downloads/out.mp4"));
    assert!(r.delivery_logged);
    // the direct transport renders its own upload progress
    assert_eq!(r.stage_updates, vec![5]);
    assert_eq!(gov.permits.held(), 0);
    assert_eq!(gov.dedup.len(), 0);
}

#[test]
fn large_file_routed_persistent() {
    let mut gov = Governor::new(2);
    let r = link_handler(
        &mut gov,
        &request("https://www.tiktok.com/@a/video/2"),
        &open_env(),
        &completed(TELEGRAM_BOT_API_FILE_LIMIT + 1),
        &OpOutcome::Succeeded,
        &sends_ok(),
    );
    assert!(matches!(r.outcome, TaskOutcome::Delivered { transport: Transport::Persistent }));
    // download start, upload start, completion: the upload phase fills the
    // 80-100 band
    assert_eq!(r.stage_updates, vec![5, 85, 100]);
    assert_eq!(gov.permits.held(), 0);
    assert_eq!(gov.dedup.len(), 0);
}

#[test]
fn private_video_gets_its_own_notice() {
    let mut gov = Governor::new(2);
    let r = link_handler(
        &mut gov,
        &request("https://www.tiktok.com/@a/video/3"),
        &open_env(),
        &all_failed("Private video"),
        &OpOutcome::Succeeded,
        &sends_ok(),
    );
    assert!(matches!(r.outcome, TaskOutcome::DownloadFailed { kind: FailureKind::Private }));
    assert_eq!(
        r.notice.as_deref(),
        Some("\u{1f512} Video is private and cannot be downloaded")
    );
    assert_eq!(r.stage_updates, vec![5]);
    assert_eq!(gov.permits.held(), 0);
    assert_eq!(gov.dedup.len(), 0);
}

#[test]
fn generic_failure_quotes_detail() {
    let mut gov = Governor::new(2);
    let r = link_handler(
        &mut gov,
        &request("https://www.tiktok.com/@a/video/4"),
        &open_env(),
        &all_failed("something odd happened"),
        &OpOutcome::Succeeded,
        &sends_ok(),
    );
    assert!(matches!(r.outcome, TaskOutcome::DownloadFailed { kind: FailureKind::Generic }));
    assert_eq!(
        r.notice.as_deref(),
        Some("\u{274c} Failed to download video: something odd happened")
    );
}

#[test]
fn upload_flood_wait_reported() {
    let mut gov = Governor::new(2);
    let r = link_handler(
        &mut gov,
        &request("https://www.tiktok.com/@a/video/5"),
        &open_env(),
        &completed(TELEGRAM_BOT_API_FILE_LIMIT + 1),
        &OpOutcome::Failed { message: "rpc error: FLOOD_WAIT_45".to_string() },
        &sends_ok(),
    );
    match r.outcome {
        TaskOutcome::UploadFailed { flood_wait } => assert_eq!(flood_wait, Some(45)),
        other => panic!("unexpected outcome: {:?}", other),
    }
    assert_eq!(
        r.notice.as_deref(),
        Some("\u{23f3} Rate limited. Please wait 45 seconds and try again.")
    );
    // the upload began but never completed
    assert_eq!(r.stage_updates, vec![5, 85]);
    assert_eq!(gov.permits.held(), 0);
    assert_eq!(gov.dedup.len(), 0);
}

#[test]
fn direct_send_exhaustion() {
    let mut gov = Governor::new(2);
    let r = link_handler(
        &mut gov,
        &request("https://www.tiktok.com/@a/video/6"),
        &open_env(),
        &completed(1_000),
        &OpOutcome::Succeeded,
        &sends_failing(),
    );
    assert!(matches!(r.outcome, TaskOutcome::SendFailedAfterRetries));
    assert_eq!(r.notice.as_deref(), Some("\u{274c} Send failed after retries"));
    assert_eq!(gov.permits.held(), 0);
    assert_eq!(gov.dedup.len(), 0);
}

#[test]
fn duplicate_submission_rejected_immediately() {
    let mut gov = Governor::new(2);
    let link = String::from("https://www.tiktok.com/@a/video/7");
    assert!(gov.dedup.claim(&link));
    let r = link_handler(
        &mut gov,
        &request(&link),
        &open_env(),
        &completed(1_000),
        &OpOutcome::Succeeded,
        &sends_ok(),
    );
    assert!(matches!(r.outcome, TaskOutcome::Duplicate));
    assert_eq!(r.notice.as_deref(), Some("This video is already being processed."));
    // the first task's claim is still the only one
    assert_eq!(gov.dedup.len(), 1);
    assert_eq!(gov.permits.held(), 0);
}

#[test]
fn subscription_gate_blocks_and_cleans_up() {
    let mut gov = Governor::new(2);
    let env = TaskEnv {
        quality: "best".to_string(),
        subscription_required: true,
        is_admin: false,
        is_subscribed: false,
    };
    let r = link_handler(
        &mut gov,
        &request("https://www.tiktok.com/@a/video/8"),
        &env,
        &completed(1_000),
        &OpOutcome::Succeeded,
        &sends_ok(),
    );
    assert!(matches!(r.outcome, TaskOutcome::SubscriptionBlocked));
    assert_eq!(r.notice.as_deref(), Some("To use the bot, please subscribe to our channels."));
    assert!(r.stage_updates.is_empty());
    assert_eq!(gov.permits.held(), 0);
    assert_eq!(gov.dedup.len(), 0);
}

#[test]
fn claims_balance_over_mixed_outcomes() {
    let mut gov = Governor::new(2);
    let gated = TaskEnv {
        quality: "best".to_string(),
        subscription_required: true,
        is_admin: false,
        is_subscribed: false,
    };
    let case = |text: &str, env: TaskEnv, downloads, upload, sends| TaskCase {
        req: request(text),
        env,
        downloads,
        persistent_upload: upload,
        direct_sends: sends,
    };
    let cases = vec![
        case("https://www.tiktok.com/v/1", open_env(), completed(10), OpOutcome::Succeeded, sends_ok()),
        case(
            "https://www.tiktok.com/v/2",
            open_env(),
            all_failed("Video unavailable"),
            OpOutcome::Succeeded,
            sends_ok(),
        ),
        case(
            "https://www.tiktok.com/v/3",
            open_env(),
            completed(TELEGRAM_BOT_API_FILE_LIMIT + 9),
            OpOutcome::Failed { message: "Connection lost".to_string() },
            sends_ok(),
        ),
        case("https://www.tiktok.com/v/4", gated, completed(10), OpOutcome::Succeeded, sends_ok()),
        case(
            "https://www.tiktok.com/v/5",
            open_env(),
            completed(10),
            OpOutcome::Succeeded,
            sends_failing(),
        ),
    ];
    // one task per exit path: delivery, download failure, upload failure,
    // gate exit and send exhaustion; afterwards every claim is balanced
    run_task_batch(&mut gov, &cases);
    assert_eq!(gov.permits.held(), 0);
    assert_eq!(gov.dedup.len(), 0);
    // the same five tasks run one by one report the five outcomes, with the
    // balance restored after each
    let mut solo = Governor::new(2);
    let expect = |o: &TaskOutcome, i: usize| match (i, o) {
        (0, TaskOutcome::Delivered { .. }) => true,
        (1, TaskOutcome::DownloadFailed { .. }) => true,
        (2, TaskOutcome::UploadFailed { .. }) => true,
        (3, TaskOutcome::SubscriptionBlocked) => true,
        (4, TaskOutcome::SendFailedAfterRetries) => true,
        _ => false,
    };
    for (i, c) in cases.iter().enumerate() {
        let r = link_handler(&mut solo, &c.req, &c.env, &c.downloads, &c.persistent_upload, &c.direct_sends);
        assert!(expect(&r.outcome, i), "task {} ended as {:?}", i, r.outcome);
        assert_eq!(solo.permits.held(), 0);
        assert_eq!(solo.dedup.len(), 0);
    }
}

#[test]
fn non_link_text_prompts() {
    let mut gov = Governor::new(2);
    let r = link_handler(
        &mut gov,
        &request("hello there"),
        &open_env(),
        &completed(10),
        &OpOutcome::Succeeded,
        &sends_ok(),
    );
    assert!(matches!(r.outcome, TaskOutcome::NotALink));
    assert_eq!(r.notice.as_deref(), Some("Please send a valid TikTok link."));
    let r = link_handler(
        &mut gov,
        &request("\u{2699}\u{fe0f} Settings"),
        &open_env(),
        &completed(10),
        &OpOutcome::Succeeded,
        &sends_ok(),
    );
    assert!(matches!(r.outcome, TaskOutcome::MenuButton));
    assert!(r.notice.is_none());
}
