//! The task-level orchestrator.  One submitted link runs as one task:
//! deduplication, rate limiting, the upload permit, the subscription gate,
//! the download round, transport selection by file size, the upload, and a
//! cleanup that always balances what was claimed.  Everything the outside
//! world contributes — what the store answered, how each download or send
//! attempt ended, how the persistent upload ended — enters as a value, so
//! the whole task decision is a function.

use vstd::prelude::*;
use vstd::string::StringExecFns;
use crate::classify::{
    extract_flood_wait, failure_notice, spec_failure_notice, spec_flood_wait, FailureKind,
};
use crate::limits::{
    lemma_recorded_bounded, spec_delay, spec_recorded_instant, DedupSet, PermitPool, RateLimiter,
    MIN_SUBMIT_INTERVAL_MS, RATE_INSTANT_CAP,
};
use crate::retry::{
    run_download_attempts, run_send_attempts, spec_attempt_kind, spec_first_completed,
    spec_first_sent, spec_round_sleep, DownloadAttempt, DownloadVerdict, SendAttempt,
    MAX_ATTEMPTS,
};
use crate::scan::{spec_u64_dec, u64_dec_chars};
use crate::text::{chars_to_string, seq_contains, str_contains};
use crate::ui::spec_is_menu_button;
use crate::ui::is_menu_button;
use crate::uploader::OpOutcome;

verus! {

/// Largest file, in bytes, that the direct transport accepts.
pub const TELEGRAM_BOT_API_FILE_LIMIT: u64 = 50331648;

/// Overall percentage rendered when the download phase begins.
pub const DOWNLOAD_START_STAGE: u8 = 5;

/// Overall percentage rendered when the persistent upload begins: the
/// upload phase occupies the 80 to 100 band of the overall progress.
pub const UPLOAD_START_STAGE: u8 = 85;

/// Overall percentage rendered when the task completes.
pub const TASK_DONE_STAGE: u8 = 100;

/// The two delivery paths.
#[derive(Clone, Copy, Debug, PartialEq, Eq, Structural)]
pub enum Transport {
    /// The size-limited transport for small files.
    Direct,
    /// The persistent-connection transport for large files.
    Persistent,
}

/// Picks the delivery path by file size: everything over the direct
/// transport's limit goes over the persistent connection.
pub fn select_transport(file_size: u64) -> (t: Transport)
    ensures
        t == (if file_size > TELEGRAM_BOT_API_FILE_LIMIT {
            Transport::Persistent
        } else {
            Transport::Direct
        }),
{
    if file_size > TELEGRAM_BOT_API_FILE_LIMIT {
        Transport::Persistent
    } else {
        Transport::Direct
    }
}

/// The process-wide state the orchestrator governs.
pub struct Governor {
    pub dedup: DedupSet,
    pub rate: RateLimiter,
    pub permits: PermitPool,
}

impl Governor {
    /// All three structures are sound.
    pub open spec fn wf(self) -> bool {
        self.dedup.wf() && self.rate.wf() && self.permits.wf()
    }

    /// Fresh state with the given upload-permit pool size.
    pub fn new(upload_permits: usize) -> (r: Governor)
        ensures
            r.wf(),
            forall|x: Seq<char>| !r.dedup.in_flight(x),
            forall|w: int| r.rate.last_of(w) is None,
            r.permits.permit_capacity() == upload_permits,
            r.permits.permits_held() == 0,
    {
        Governor {
            dedup: DedupSet::new(),
            rate: RateLimiter::new(),
            permits: PermitPool::new(upload_permits),
        }
    }
}

/// One inbound submission.
pub struct TaskRequest {
    /// The recipient (and chat) the submission came from.
    pub chat_id: i64,
    /// The message text; a task runs only when it carries a link.
    pub text: String,
    /// The recipient's display name, when known.
    pub username: Option<String>,
    /// Arrival instant, in milliseconds.
    pub now_ms: u64,
}

/// What the collaborators answered while the task was set up: the stored
/// quality preference, the subscription-gate setting, and the recipient's
/// standing.
pub struct TaskEnv {
    pub quality: String,
    pub subscription_required: bool,
    pub is_admin: bool,
    pub is_subscribed: bool,
}

/// How one task ended.
#[derive(Clone, Debug)]
pub enum TaskOutcome {
    /// The text was a menu button; no task ran.
    MenuButton,
    /// The text carried no link; the sender was prompted.
    NotALink,
    /// The link already had a task in flight; rejected at once, no retry.
    Duplicate,
    /// The subscription gate turned the sender away.
    SubscriptionBlocked,
    /// Every download attempt failed; the classified category.
    DownloadFailed { kind: FailureKind },
    /// The persistent upload failed; the flood-control demand, when its
    /// failure text carried one.
    UploadFailed { flood_wait: Option<u64> },
    /// The direct transport failed on every attempt.
    SendFailedAfterRetries,
    /// The file went out over the given transport.
    Delivered { transport: Transport },
}

/// Everything one finished task reports back.
pub struct TaskRunResult {
    /// How the task ended.
    pub outcome: TaskOutcome,
    /// The user-facing notice sent, if any.
    pub notice: Option<String>,
    /// Total time the task slept: the rate-limit delay plus every backoff.
    pub waited_ms: u64,
    /// The local file removed during cleanup, when one was produced.
    pub removed_file: Option<String>,
    /// Whether a delivery record is appended to the store.
    pub delivery_logged: bool,
    /// The fixed-stage percentages the task renders around its phases: the
    /// download start and, on the persistent path, the upload start and
    /// completion.  The download phase's own values, its closing 80
    /// included, come from the extraction adapter, and the direct
    /// transport renders its upload progress itself.
    pub stage_updates: Vec<u8>,
}

/// The text asks for work: it is no menu button and carries a link.
pub open spec fn spec_is_link_request(text: Seq<char>) -> bool {
    !spec_is_menu_button(text) && seq_contains(text, "tiktok.com"@)
}

/// The notice sent when the persistent upload fails: the cooldown demand
/// when the failure carried one, and a plain failure notice otherwise.
pub open spec fn spec_upload_failure_notice(message: Seq<char>) -> Seq<char> {
    match spec_flood_wait(message) {
        Some(secs) => "\u{23f3} Rate limited. Please wait "@ + spec_u64_dec(secs)
            + " seconds and try again."@,
        None => "\u{274c} Upload failed - please try again later"@,
    }
}

/// Runs one whole task over the given submission.  The values of every
/// outside interaction come in as arguments: `downloads[i]` is how the
/// `i`-th download attempt would end, `persistent_upload` how the
/// persistent transport's (internally retried) upload would end, and
/// `direct_sends[i]` how the `i`-th direct-transport attempt would end.
/// The permit wait is the task's suspension point: the task body runs once
/// a permit can be granted, which the caller's scheduling guarantees.
///
/// Whatever the path taken, the permits held and the links in flight are
/// exactly as before: the dedup key and the upload permit are claimed and
/// released in balance on success, download failure, upload failure and the
/// early subscription-gate exit alike.
pub fn link_handler(
    gov: &mut Governor,
    req: &TaskRequest,
    env: &TaskEnv,
    downloads: &Vec<DownloadAttempt>,
    persistent_upload: &OpOutcome,
    direct_sends: &Vec<SendAttempt>,
) -> (r: TaskRunResult)
    requires
        old(gov).wf(),
        old(gov).permits.permits_held() < old(gov).permits.permit_capacity(),
        downloads@.len() >= MAX_ATTEMPTS,
        direct_sends@.len() >= MAX_ATTEMPTS,
        req.now_ms <= RATE_INSTANT_CAP,
    ensures
        final(gov).wf(),
        final(gov).permits.permits_held() == old(gov).permits.permits_held(),
        final(gov).permits.permit_capacity() == old(gov).permits.permit_capacity(),
        final(gov).dedup.spec_len() == old(gov).dedup.spec_len(),
        forall|x: Seq<char>|
            final(gov).dedup.in_flight(x) <==> old(gov).dedup.in_flight(x),
        !spec_is_link_request(req.text@) || old(gov).dedup.in_flight(req.text@)
            ==> final(gov).rate == old(gov).rate,
        ({
            let text = req.text@;
            if spec_is_menu_button(text) {
                r.outcome is MenuButton && r.notice is None && r.waited_ms == 0
                    && r.removed_file is None && !r.delivery_logged && r.stage_updates@
                    == Seq::<u8>::empty()
            } else if !seq_contains(text, "tiktok.com"@) {
                r.outcome is NotALink && (r.notice matches Some(n) && n@
                    == "Please send a valid TikTok link."@) && r.waited_ms == 0
                    && r.removed_file is None && !r.delivery_logged && r.stage_updates@
                    == Seq::<u8>::empty()
            } else if old(gov).dedup.in_flight(text) {
                r.outcome is Duplicate && (r.notice matches Some(n) && n@
                    == "This video is already being processed."@) && r.waited_ms == 0
                    && r.removed_file is None && !r.delivery_logged && r.stage_updates@
                    == Seq::<u8>::empty()
            } else {
                let delay = spec_delay(old(gov).rate.last_of(req.chat_id as int), req.now_ms as int);
                &&& final(gov).rate.last_of(req.chat_id as int) == Some(
                    spec_recorded_instant(
                        old(gov).rate.last_of(req.chat_id as int),
                        req.now_ms as int,
                    ),
                )
                &&& forall|w: int|
                    w != req.chat_id ==> final(gov).rate.last_of(w) == old(gov).rate.last_of(w)
                &&& if env.subscription_required && !env.is_admin && !env.is_subscribed {
                    r.outcome is SubscriptionBlocked && (r.notice matches Some(n) && n@
                        == "To use the bot, please subscribe to our channels."@) && r.waited_ms
                        == delay && r.removed_file is None && !r.delivery_logged
                        && r.stage_updates@ == Seq::<u8>::empty()
                } else {
                    let j = spec_first_completed(downloads@);
                    if j < 0 {
                        let kind = spec_attempt_kind(downloads@[2]);
                        &&& r.outcome matches TaskOutcome::DownloadFailed { kind: k } && k == kind
                        &&& (downloads@[2] matches DownloadAttempt::Errored { message }
                            ==> (r.notice matches Some(n) && n@ == spec_failure_notice(
                            kind,
                            message@,
                        )))
                        &&& r.waited_ms == delay + spec_round_sleep(-1)
                        &&& r.removed_file is None
                        &&& !r.delivery_logged
                        &&& r.stage_updates@ == seq![DOWNLOAD_START_STAGE]
                    } else {
                        let path = downloads@[j]->Completed_path;
                        let size = downloads@[j]->Completed_size;
                        &&& (r.removed_file matches Some(p) && p@ == path@)
                        &&& r.delivery_logged
                        &&& if size > TELEGRAM_BOT_API_FILE_LIMIT {
                            match *persistent_upload {
                                OpOutcome::Succeeded => r.outcome matches TaskOutcome::Delivered {
                                    transport,
                                } && transport is Persistent && r.notice is None && r.waited_ms
                                    == delay + spec_round_sleep(j) && r.stage_updates@ == seq![
                                    DOWNLOAD_START_STAGE,
                                    UPLOAD_START_STAGE,
                                    TASK_DONE_STAGE,
                                ],
                                OpOutcome::Failed { message } => {
                                    &&& r.outcome matches TaskOutcome::UploadFailed { flood_wait }
                                        && (match spec_flood_wait(message@) {
                                        Some(secs) => flood_wait matches Some(s) && s == secs,
                                        None => flood_wait is None,
                                    })
                                    &&& (r.notice matches Some(n) && n@
                                        == spec_upload_failure_notice(message@))
                                    &&& r.waited_ms == delay + spec_round_sleep(j)
                                    &&& r.stage_updates@ == seq![
                                        DOWNLOAD_START_STAGE,
                                        UPLOAD_START_STAGE,
                                    ]
                                },
                            }
                        } else {
                            let s = spec_first_sent(direct_sends@);
                            if s >= 0 {
                                r.outcome matches TaskOutcome::Delivered { transport } && transport
                                    is Direct && r.notice is None && r.waited_ms == delay
                                    + spec_round_sleep(j) + spec_round_sleep(s) && r.stage_updates@
                                    == seq![DOWNLOAD_START_STAGE]
                            } else {
                                r.outcome is SendFailedAfterRetries && (r.notice matches Some(n)
                                    && n@ == "\u{274c} Send failed after retries"@) && r.waited_ms
                                    == delay + spec_round_sleep(j) + spec_round_sleep(-1)
                                    && r.stage_updates@ == seq![DOWNLOAD_START_STAGE]
                            }
                        }
                    }
                }
            }
        }),
{
    if is_menu_button(req.text.as_str()) {
        return TaskRunResult {
            outcome: TaskOutcome::MenuButton,
            notice: None,
            waited_ms: 0,
            removed_file: None,
            delivery_logged: false,
            stage_updates: Vec::new(),
        };
    }
    if !str_contains(req.text.as_str(), "tiktok.com") {
        return TaskRunResult {
            outcome: TaskOutcome::NotALink,
            notice: Some("Please send a valid TikTok link.".to_owned()),
            waited_ms: 0,
            removed_file: None,
            delivery_logged: false,
            stage_updates: Vec::new(),
        };
    }
    if !gov.dedup.claim(&req.text) {
        return TaskRunResult {
            outcome: TaskOutcome::Duplicate,
            notice: Some("This video is already being processed.".to_owned()),
            waited_ms: 0,
            removed_file: None,
            delivery_logged: false,
            stage_updates: Vec::new(),
        };
    }
    // The rate-limit suspension: the task sleeps until a full interval lies
    // behind the recipient's previous effective send, then records its own
    // effective send instant, held at the record cap.
    proof {
        lemma_recorded_bounded(gov.rate, req.chat_id as int);
    }
    let delay = gov.rate.submission_delay(req.chat_id, req.now_ms);
    let effective = req.now_ms + delay;
    let recorded = if effective > RATE_INSTANT_CAP {
        RATE_INSTANT_CAP
    } else {
        effective
    };
    gov.rate.record(req.chat_id, recorded);
    let mut waited: u64 = delay;
    // The permit wait: grantable by the precondition.
    let granted = gov.permits.try_acquire();
    assert(granted);
    if env.subscription_required && !env.is_admin && !env.is_subscribed {
        gov.permits.release();
        gov.dedup.release(&req.text);
        return TaskRunResult {
            outcome: TaskOutcome::SubscriptionBlocked,
            notice: Some("To use the bot, please subscribe to our channels.".to_owned()),
            waited_ms: waited,
            removed_file: None,
            delivery_logged: false,
            stage_updates: Vec::new(),
        };
    }
    let mut stages: Vec<u8> = Vec::new();
    stages.push(DOWNLOAD_START_STAGE);
    assert(stages@ =~= seq![DOWNLOAD_START_STAGE]);
    let round = run_download_attempts(downloads);
    waited = waited + round.slept_ms;
    match round.verdict {
        DownloadVerdict::Failed { kind, detail } => {
            let notice = failure_notice(kind, detail.as_str());
            gov.permits.release();
            gov.dedup.release(&req.text);
            TaskRunResult {
                outcome: TaskOutcome::DownloadFailed { kind },
                notice: Some(notice),
                waited_ms: waited,
                removed_file: None,
                delivery_logged: false,
                stage_updates: stages,
            }
        },
        DownloadVerdict::Got { path, size } => {
            let (outcome, notice) = if size > TELEGRAM_BOT_API_FILE_LIMIT {
                stages.push(UPLOAD_START_STAGE);
                assert(stages@ =~= seq![DOWNLOAD_START_STAGE, UPLOAD_START_STAGE]);
                match persistent_upload {
                    OpOutcome::Succeeded => {
                        stages.push(TASK_DONE_STAGE);
                        assert(stages@ =~= seq![
                            DOWNLOAD_START_STAGE,
                            UPLOAD_START_STAGE,
                            TASK_DONE_STAGE,
                        ]);
                        (TaskOutcome::Delivered { transport: Transport::Persistent }, None)
                    },
                    OpOutcome::Failed { message } => {
                        let flood = extract_flood_wait(message.as_str());
                        let n = match flood {
                            Some(secs) => {
                                let mut s = "\u{23f3} Rate limited. Please wait ".to_owned();
                                let dec = u64_dec_chars(secs);
                                let dec_s = chars_to_string(&dec);
                                s.append(dec_s.as_str());
                                s.append(" seconds and try again.");
                                s
                            },
                            None => "\u{274c} Upload failed - please try again later".to_owned(),
                        };
                        (TaskOutcome::UploadFailed { flood_wait: flood }, Some(n))
                    },
                }
            } else {
                let sends = run_send_attempts(direct_sends);
                waited = waited + sends.slept_ms;
                if sends.delivered {
                    (TaskOutcome::Delivered { transport: Transport::Direct }, None)
                } else {
                    (
                        TaskOutcome::SendFailedAfterRetries,
                        Some("\u{274c} Send failed after retries".to_owned()),
                    )
                }
            };
            // Cleanup: permit, dedup key, and the local file, on every path.
            gov.permits.release();
            gov.dedup.release(&req.text);
            TaskRunResult {
                outcome,
                notice,
                waited_ms: waited,
                removed_file: Some(path),
                delivery_logged: true,
                stage_updates: stages,
            }
        },
    }
}

/// One submission with everything its task needs from the outside world.
pub struct TaskCase {
    pub req: TaskRequest,
    pub env: TaskEnv,
    pub downloads: Vec<DownloadAttempt>,
    pub persistent_upload: OpOutcome,
    pub direct_sends: Vec<SendAttempt>,
}

/// Runs any number of submissions in turn.  However the tasks end — mixed
/// deliveries, download failures, upload failures, early gate exits — the
/// claims balance: after the whole batch the permits held, the number of
/// links in flight and the in-flight set itself are exactly as before.
/// What each task reports is fixed case by case by the task runner's own
/// contract; this batch form states only the balance, so it hands nothing
/// back.
pub fn run_task_batch(gov: &mut Governor, cases: &Vec<TaskCase>)
    requires
        old(gov).wf(),
        old(gov).permits.permits_held() < old(gov).permits.permit_capacity(),
        forall|i: int|
            0 <= i < cases@.len() ==> (#[trigger] cases@[i]).downloads@.len() >= MAX_ATTEMPTS
                && cases@[i].direct_sends@.len() >= MAX_ATTEMPTS && cases@[i].req.now_ms
                <= RATE_INSTANT_CAP,
    ensures
        final(gov).wf(),
        final(gov).permits.permits_held() == old(gov).permits.permits_held(),
        final(gov).permits.permit_capacity() == old(gov).permits.permit_capacity(),
        final(gov).dedup.spec_len() == old(gov).dedup.spec_len(),
        forall|x: Seq<char>|
            final(gov).dedup.in_flight(x) <==> old(gov).dedup.in_flight(x),
{
    let n = cases.len();
    let mut i: usize = 0;
    while i < n
        invariant
            i <= n,
            n == cases@.len(),
            gov.wf(),
            gov.permits.permits_held() == old(gov).permits.permits_held(),
            gov.permits.permit_capacity() == old(gov).permits.permit_capacity(),
            old(gov).permits.permits_held() < old(gov).permits.permit_capacity(),
            gov.dedup.spec_len() == old(gov).dedup.spec_len(),
            forall|x: Seq<char>| gov.dedup.in_flight(x) <==> old(gov).dedup.in_flight(x),
            forall|k: int|
                0 <= k < cases@.len() ==> (#[trigger] cases@[k]).downloads@.len() >= MAX_ATTEMPTS
                    && cases@[k].direct_sends@.len() >= MAX_ATTEMPTS && cases@[k].req.now_ms
                    <= RATE_INSTANT_CAP,
        decreases n - i,
    {
        let case = &cases[i];
        link_handler(
            gov,
            &case.req,
            &case.env,
            &case.downloads,
            &case.persistent_upload,
            &case.direct_sends,
        );
        i = i + 1;
    }
}

} // verus!
