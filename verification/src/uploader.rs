//! The persistent upload client's retry wrapper.  One long-lived connection
//! serves every upload; when an operation fails with a transport-level
//! disconnect the connection is repaired in place and the operation retried,
//! up to a fixed number of attempts, with a short pause after a successful
//! repair.  A flood-control demand is honoured as a bounded sleep before the
//! next attempt; any other failure is surfaced at once.

use vstd::prelude::*;
use crate::classify::{
    spec_is_disconnect, spec_flood_wait, is_disconnect_error, extract_flood_wait,
    capped_flood_sleep, FLOOD_WAIT_CAP,
};

verus! {

/// How many times the retry wrapper attempts its operation.
pub const MAX_UPLOAD_ATTEMPTS: usize = 3;

/// Pause, in time units, after a successful reconnect that another attempt
/// follows.
pub const RECONNECT_PAUSE_UNITS: u64 = 2;

/// Outcome of one attempt of the wrapped operation.
#[derive(Clone, Debug)]
pub enum OpOutcome {
    Succeeded,
    Failed { message: String },
}

/// How a whole run of the retry wrapper ended.
#[derive(Clone, Debug)]
pub enum UploadRunResult {
    /// The operation went through on the given 1-based attempt.
    Done { attempts_used: usize },
    /// A failure that is neither a disconnect nor a flood demand is
    /// surfaced at once, with its text.
    Surfaced { message: String },
    /// The last attempt failed with a disconnect whose repair failed: the
    /// failure is surfaced, with its text.
    SurfacedAfterRepairFailure { message: String },
    /// Every attempt was spent.
    ExhaustedRetries,
}

/// The seconds slept for a flood demand: the demanded seconds, capped.
pub open spec fn spec_flood_sleep(m: Seq<char>) -> int {
    match spec_flood_wait(m) {
        Some(secs) => if secs < FLOOD_WAIT_CAP as int {
            secs
        } else {
            FLOOD_WAIT_CAP as int
        },
        None => 0,
    }
}

/// How the retry wrapper ends when started at the 1-based attempt number
/// `attempt + 1`, given what each attempt of the operation would return and
/// whether each repair would succeed.
pub open spec fn spec_retry_outcome(
    ops: Seq<OpOutcome>,
    rec: Seq<bool>,
    attempt: int,
) -> UploadRunResult
    decreases MAX_UPLOAD_ATTEMPTS - attempt,
{
    if !(0 <= attempt < MAX_UPLOAD_ATTEMPTS) {
        UploadRunResult::ExhaustedRetries
    } else {
        match ops[attempt] {
            OpOutcome::Succeeded => UploadRunResult::Done { attempts_used: (attempt + 1) as usize },
            OpOutcome::Failed { message } => if spec_is_disconnect(message@) {
                if !rec[attempt] && attempt == MAX_UPLOAD_ATTEMPTS - 1 {
                    UploadRunResult::SurfacedAfterRepairFailure { message }
                } else {
                    spec_retry_outcome(ops, rec, attempt + 1)
                }
            } else if spec_flood_wait(message@) is Some {
                spec_retry_outcome(ops, rec, attempt + 1)
            } else {
                UploadRunResult::Surfaced { message }
            },
        }
    }
}

/// Time units slept by the run started at `attempt`: the post-repair pauses
/// and the capped flood sleeps.
pub open spec fn spec_retry_sleep(ops: Seq<OpOutcome>, rec: Seq<bool>, attempt: int) -> int
    decreases MAX_UPLOAD_ATTEMPTS - attempt,
{
    if !(0 <= attempt < MAX_UPLOAD_ATTEMPTS) {
        0
    } else {
        match ops[attempt] {
            OpOutcome::Succeeded => 0,
            OpOutcome::Failed { message } => if spec_is_disconnect(message@) {
                if !rec[attempt] && attempt == MAX_UPLOAD_ATTEMPTS - 1 {
                    0
                } else {
                    (if rec[attempt] && attempt < MAX_UPLOAD_ATTEMPTS - 1 {
                        RECONNECT_PAUSE_UNITS as int
                    } else {
                        0
                    }) + spec_retry_sleep(ops, rec, attempt + 1)
                }
            } else if spec_flood_wait(message@) is Some {
                spec_flood_sleep(message@) + spec_retry_sleep(ops, rec, attempt + 1)
            } else {
                0
            },
        }
    }
}

/// Repairs attempted by the run started at `attempt`.
pub open spec fn spec_retry_reconnects(ops: Seq<OpOutcome>, rec: Seq<bool>, attempt: int) -> int
    decreases MAX_UPLOAD_ATTEMPTS - attempt,
{
    if !(0 <= attempt < MAX_UPLOAD_ATTEMPTS) {
        0
    } else {
        match ops[attempt] {
            OpOutcome::Succeeded => 0,
            OpOutcome::Failed { message } => if spec_is_disconnect(message@) {
                if !rec[attempt] && attempt == MAX_UPLOAD_ATTEMPTS - 1 {
                    1
                } else {
                    1 + spec_retry_reconnects(ops, rec, attempt + 1)
                }
            } else if spec_flood_wait(message@) is Some {
                spec_retry_reconnects(ops, rec, attempt + 1)
            } else {
                0
            },
        }
    }
}

/// Interval, in time units, between two keep-alive calls on the shared
/// connection.
pub const KEEPALIVE_INTERVAL_UNITS: u64 = 300;

/// Whether the background task owes the connection a keep-alive call.
pub fn keepalive_due(last_ping: u64, now: u64) -> (r: bool)
    ensures
        r == (crate::scan::spec_elapsed(now as int, last_ping as int)
            >= KEEPALIVE_INTERVAL_UNITS as int),
{
    let elapsed = if now >= last_ping {
        now - last_ping
    } else {
        0
    };
    elapsed >= KEEPALIVE_INTERVAL_UNITS
}

/// What a finished keep-alive call demands: a failed ping repairs the
/// connection in place, exactly as the retry wrapper would.
pub fn keepalive_wants_reconnect(ping_ok: bool) -> (r: bool)
    ensures
        r == !ping_ok,
{
    !ping_ok
}

/// A finished run of the retry wrapper: its outcome, the time units it
/// slept, and how many repairs it attempted.
pub struct ReconnectRunResult {
    pub outcome: UploadRunResult,
    pub slept_units: u64,
    pub reconnects: usize,
}

/// Runs the retry wrapper over the recorded attempt outcomes.  `ops[i]` is
/// what the `i`-th attempt of the operation would return; `reconnect_ok[i]`
/// is whether the repair after a disconnect on attempt `i` would succeed.
pub fn with_reconnect_retry(ops: &Vec<OpOutcome>, reconnect_ok: &Vec<bool>) -> (r: ReconnectRunResult)
    requires
        ops@.len() >= MAX_UPLOAD_ATTEMPTS,
        reconnect_ok@.len() >= MAX_UPLOAD_ATTEMPTS,
    ensures
        r.outcome == spec_retry_outcome(ops@, reconnect_ok@, 0),
        r.slept_units as int == spec_retry_sleep(ops@, reconnect_ok@, 0),
        r.reconnects as int == spec_retry_reconnects(ops@, reconnect_ok@, 0),
{
    let mut slept: u64 = 0;
    let mut reconnects: usize = 0;
    let mut attempt: usize = 0;
    while attempt < MAX_UPLOAD_ATTEMPTS
        invariant
            attempt <= MAX_UPLOAD_ATTEMPTS,
            ops@.len() >= MAX_UPLOAD_ATTEMPTS,
            reconnect_ok@.len() >= MAX_UPLOAD_ATTEMPTS,
            spec_retry_outcome(ops@, reconnect_ok@, 0) == spec_retry_outcome(
                ops@,
                reconnect_ok@,
                attempt as int,
            ),
            slept as int + spec_retry_sleep(ops@, reconnect_ok@, attempt as int)
                == spec_retry_sleep(ops@, reconnect_ok@, 0),
            reconnects as int + spec_retry_reconnects(ops@, reconnect_ok@, attempt as int)
                == spec_retry_reconnects(ops@, reconnect_ok@, 0),
            slept <= attempt as u64 * 30,
            reconnects <= attempt,
        decreases MAX_UPLOAD_ATTEMPTS - attempt,
    {
        match &ops[attempt] {
            OpOutcome::Succeeded => {
                return ReconnectRunResult {
                    outcome: UploadRunResult::Done { attempts_used: attempt + 1 },
                    slept_units: slept,
                    reconnects,
                };
            },
            OpOutcome::Failed { message } => {
                if is_disconnect_error(message.as_str()) {
                    let repaired = reconnect_ok[attempt];
                    reconnects = reconnects + 1;
                    if !repaired && attempt == MAX_UPLOAD_ATTEMPTS - 1 {
                        return ReconnectRunResult {
                            outcome: UploadRunResult::SurfacedAfterRepairFailure {
                                message: message.clone(),
                            },
                            slept_units: slept,
                            reconnects,
                        };
                    }
                    if repaired && attempt < MAX_UPLOAD_ATTEMPTS - 1 {
                        slept = slept + RECONNECT_PAUSE_UNITS;
                    }
                } else {
                    match extract_flood_wait(message.as_str()) {
                        Some(secs) => {
                            slept = slept + capped_flood_sleep(secs);
                        },
                        None => {
                            return ReconnectRunResult {
                                outcome: UploadRunResult::Surfaced { message: message.clone() },
                                slept_units: slept,
                                reconnects,
                            };
                        },
                    }
                }
            },
        }
        attempt = attempt + 1;
    }
    ReconnectRunResult { outcome: UploadRunResult::ExhaustedRetries, slept_units: slept, reconnects }
}

/// Recovery through reconnection: when the first attempts fail only with
/// disconnects whose repairs succeed, and an attempt within the bound then
/// succeeds, the whole run succeeds, on exactly that attempt.
pub proof fn law_reconnect_recovers(ops: Seq<OpOutcome>, rec: Seq<bool>, a: int, k: int)
    requires
        ops.len() >= MAX_UPLOAD_ATTEMPTS,
        rec.len() >= MAX_UPLOAD_ATTEMPTS,
        0 <= a <= k < MAX_UPLOAD_ATTEMPTS,
        forall|i: int|
            a <= i < k ==> ((#[trigger] ops[i]) matches OpOutcome::Failed { message }
                && spec_is_disconnect(message@)),
        forall|i: int| a <= i < k ==> rec[i],
        ops[k] is Succeeded,
    ensures
        spec_retry_outcome(ops, rec, a) == (UploadRunResult::Done {
            attempts_used: (k + 1) as usize,
        }),
    decreases k - a,
{
    if a < k {
        law_reconnect_recovers(ops, rec, a + 1, k);
    }
}

} // verus!
