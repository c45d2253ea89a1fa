//! Bounded retry with exponential backoff.  A download or a direct send is
//! attempted up to a fixed number of times; each failure or timeout costs a
//! doubling delay, capped, and the last failure decides the reported error.

use vstd::prelude::*;
use vstd::math::min;
use crate::classify::{spec_classify, classify_download_error, FailureKind};

verus! {

/// How many times a download or a direct send is attempted.
pub const MAX_ATTEMPTS: usize = 3;

/// Wall-clock bound, in milliseconds, on one download attempt; an attempt
/// that outruns it counts as one timed-out attempt.
pub const DOWNLOAD_TIMEOUT_MS: u64 = 300000;

/// Wall-clock bound, in milliseconds, on one direct-transport attempt; an
/// attempt that outruns it counts as one timed-out attempt.
pub const UPLOAD_TIMEOUT_MS: u64 = 600000;

/// First backoff delay, in milliseconds.
pub const BACKOFF_BASE_MS: u64 = 1000;

/// Largest backoff delay, in milliseconds.
pub const BACKOFF_CAP_MS: u64 = 30000;

/// Two to the power `e`.
pub open spec fn spec_pow2(e: nat) -> int
    decreases e,
{
    if e == 0 {
        1
    } else {
        2 * spec_pow2((e - 1) as nat)
    }
}

/// The delay slept after the `retries`-th failed attempt: the base delay
/// doubled once per earlier failure, capped.
pub open spec fn spec_backoff_ms(retries: int) -> int {
    min(BACKOFF_BASE_MS as int * spec_pow2((retries - 1) as nat), BACKOFF_CAP_MS as int)
}

/// Computes the backoff delay after the `retries`-th failed attempt.
pub fn backoff_delay_ms(retries: u32) -> (r: u64)
    requires
        retries >= 1,
    ensures
        r as int == spec_backoff_ms(retries as int),
{
    let mut d: u64 = BACKOFF_BASE_MS;
    let mut i: u32 = 1;
    while i < retries
        invariant
            1 <= i <= retries,
            d as int == BACKOFF_BASE_MS as int * spec_pow2((i - 1) as nat),
            d <= BACKOFF_CAP_MS,
        decreases retries - i,
    {
        let next = d * 2;
        if next >= BACKOFF_CAP_MS {
            proof {
                lemma_pow2_grows(i as nat, (retries - 1) as nat);
            }
            return BACKOFF_CAP_MS;
        }
        d = next;
        i = i + 1;
    }
    d
}

/// Doubling never shrinks: a later power of two is at least an earlier one.
proof fn lemma_pow2_grows(a: nat, b: nat)
    requires
        a <= b,
    ensures
        spec_pow2(a) <= spec_pow2(b),
        spec_pow2(a) >= 1,
    decreases b,
{
    if a < b {
        lemma_pow2_grows(a, (b - 1) as nat);
    } else if b > 0 {
        lemma_pow2_grows((a - 1) as nat, (b - 1) as nat);
    }
}

/// One attempt of the extraction step, as the orchestrator sees it.
#[derive(Clone, Debug)]
pub enum DownloadAttempt {
    /// The tool produced a file of the given size at the given path.
    Completed { path: String, size: u64 },
    /// The attempt failed with a diagnostic text.
    Errored { message: String },
    /// The attempt outran its wall-clock timeout.
    TimedOut,
}

/// How a whole download round ended.
#[derive(Clone, Debug)]
pub enum DownloadVerdict {
    /// A file was produced.
    Got { path: String, size: u64 },
    /// Every attempt failed; the category of the last failure, and its
    /// diagnostic text for the generic notice.
    Failed { kind: FailureKind, detail: String },
}

/// A finished download round: its verdict and the total backoff slept.
pub struct DownloadRoundResult {
    pub verdict: DownloadVerdict,
    pub slept_ms: u64,
}

/// Index of the first completed attempt among the three tried, or -1.
pub open spec fn spec_first_completed(atts: Seq<DownloadAttempt>) -> int {
    if atts[0] is Completed {
        0
    } else if atts[1] is Completed {
        1
    } else if atts[2] is Completed {
        2
    } else {
        -1
    }
}

/// Backoff slept in a round whose first success is at `j` (-1 for none):
/// one delay per failed attempt that another attempt follows.
pub open spec fn spec_round_sleep(j: int) -> int {
    if j == 0 {
        0
    } else if j == 1 {
        spec_backoff_ms(1)
    } else {
        spec_backoff_ms(1) + spec_backoff_ms(2)
    }
}

/// The category a failed attempt is charged with: its classified diagnostic
/// text, or the timeout category.
pub open spec fn spec_attempt_kind(att: DownloadAttempt) -> FailureKind {
    match att {
        DownloadAttempt::Errored { message } => spec_classify(message@),
        _ => FailureKind::Timeout,
    }
}

/// Runs one download round over the recorded attempt outcomes: attempts are
/// consumed in order until one completes or all are spent; the verdict
/// carries the produced file, or the classified last failure.
pub fn run_download_attempts(attempts: &Vec<DownloadAttempt>) -> (r: DownloadRoundResult)
    requires
        attempts@.len() >= MAX_ATTEMPTS,
    ensures
        ({
            let j = spec_first_completed(attempts@);
            &&& r.slept_ms as int == spec_round_sleep(j)
            &&& if j >= 0 {
                r.verdict matches DownloadVerdict::Got { path, size }
                    && attempts@[j] matches DownloadAttempt::Completed {
                    path: p,
                    size: s,
                } && path@ == p@ && size == s
            } else {
                r.verdict matches DownloadVerdict::Failed { kind, detail }
                    && kind == spec_attempt_kind(attempts@[2]) && (attempts@[2] matches
                DownloadAttempt::Errored { message } ==> detail@ == message@)
            }
        }),
{
    let mut slept: u64 = 0;
    let mut attempt: usize = 0;
    while attempt < MAX_ATTEMPTS
        invariant
            attempt < MAX_ATTEMPTS,
            attempts@.len() >= MAX_ATTEMPTS,
            forall|k: int| 0 <= k < attempt ==> !(attempts@[k] is Completed),
            slept as int == spec_round_sleep_upto(attempt as int),
        decreases MAX_ATTEMPTS - attempt,
    {
        match &attempts[attempt] {
            DownloadAttempt::Completed { path, size } => {
                return DownloadRoundResult {
                    verdict: DownloadVerdict::Got { path: path.clone(), size: *size },
                    slept_ms: slept,
                };
            },
            DownloadAttempt::Errored { message } => {
                if attempt + 1 >= MAX_ATTEMPTS {
                    let kind = classify_download_error(message.as_str());
                    return DownloadRoundResult {
                        verdict: DownloadVerdict::Failed { kind, detail: message.clone() },
                        slept_ms: slept,
                    };
                }
                slept = slept + backoff_delay_ms(attempt as u32 + 1);
            },
            DownloadAttempt::TimedOut => {
                if attempt + 1 >= MAX_ATTEMPTS {
                    return DownloadRoundResult {
                        verdict: DownloadVerdict::Failed {
                            kind: FailureKind::Timeout,
                            detail: "".to_owned(),
                        },
                        slept_ms: slept,
                    };
                }
                slept = slept + backoff_delay_ms(attempt as u32 + 1);
            },
        }
        attempt = attempt + 1;
    }
    assert(false);
    DownloadRoundResult {
        verdict: DownloadVerdict::Failed { kind: FailureKind::Generic, detail: "".to_owned() },
        slept_ms: 0,
    }
}

/// Backoff slept once the first `a` attempts have failed.
pub open spec fn spec_round_sleep_upto(a: int) -> int {
    if a <= 0 {
        0
    } else if a == 1 {
        spec_backoff_ms(1)
    } else {
        spec_backoff_ms(1) + spec_backoff_ms(2)
    }
}

/// One attempt of the direct small-file transport.
#[derive(Clone, Debug)]
pub enum SendAttempt {
    /// The file went through.
    Sent,
    /// The attempt failed with a diagnostic text.
    Errored { message: String },
    /// The attempt outran its wall-clock timeout.
    TimedOut,
}

/// A finished direct-send round: whether the file went through, and the
/// total backoff slept.
pub struct SendRoundResult {
    pub delivered: bool,
    pub slept_ms: u64,
}

/// Index of the first successful send among the three tried, or -1.
pub open spec fn spec_first_sent(atts: Seq<SendAttempt>) -> int {
    if atts[0] is Sent {
        0
    } else if atts[1] is Sent {
        1
    } else if atts[2] is Sent {
        2
    } else {
        -1
    }
}

/// Runs one direct-send round over the recorded attempt outcomes.
pub fn run_send_attempts(attempts: &Vec<SendAttempt>) -> (r: SendRoundResult)
    requires
        attempts@.len() >= MAX_ATTEMPTS,
    ensures
        ({
            let j = spec_first_sent(attempts@);
            &&& r.delivered == (j >= 0)
            &&& r.slept_ms as int == spec_round_sleep(j)
        }),
{
    let mut slept: u64 = 0;
    let mut attempt: usize = 0;
    while attempt < MAX_ATTEMPTS
        invariant
            attempt < MAX_ATTEMPTS,
            attempts@.len() >= MAX_ATTEMPTS,
            forall|k: int| 0 <= k < attempt ==> !(attempts@[k] is Sent),
            slept as int == spec_round_sleep_upto(attempt as int),
        decreases MAX_ATTEMPTS - attempt,
    {
        match &attempts[attempt] {
            SendAttempt::Sent => {
                return SendRoundResult { delivered: true, slept_ms: slept };
            },
            _ => {
                if attempt + 1 >= MAX_ATTEMPTS {
                    return SendRoundResult { delivered: false, slept_ms: slept };
                }
                slept = slept + backoff_delay_ms(attempt as u32 + 1);
            },
        }
        attempt = attempt + 1;
    }
    assert(false);
    SendRoundResult { delivered: false, slept_ms: 0 }
}

} // verus!
