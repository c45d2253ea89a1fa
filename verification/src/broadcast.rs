//! Broadcast dialogue state and pacing.  An administrator composes one
//! message, confirms it, and the bot sends it to every user, pausing after
//! each batch to respect the transport's rate and honouring flood-control
//! demands as bounded sleeps.

use vstd::prelude::*;

verus! {

/// Where the broadcast dialogue stands.
#[derive(Clone, Debug)]
pub enum BroadcastState {
    /// No broadcast in progress.
    Idle,
    /// Waiting for the administrator's message.
    WaitingForMessage,
    /// Waiting for the administrator to confirm the composed message.
    WaitingForConfirmation { message: String },
}

impl Default for BroadcastState {
    /// The dialogue starts idle.
    fn default() -> (r: BroadcastState)
        ensures
            r is Idle,
    {
        BroadcastState::Idle
    }
}

/// How many messages go out between pauses.
pub const BROADCAST_BATCH: usize = 25;

/// Whether the sender pauses before the `idx`-th message: after every full
/// batch, but never before the first.
pub fn broadcast_pause_needed(idx: usize) -> (r: bool)
    ensures
        r == (idx > 0 && idx % BROADCAST_BATCH == 0),
{
    idx > 0 && idx % BROADCAST_BATCH == 0
}

/// The running tally of one broadcast.
pub struct BroadcastTally {
    pub sent: u64,
    pub failed: u64,
}

impl BroadcastTally {
    /// An untouched tally.
    pub fn new() -> (r: BroadcastTally)
        ensures
            r.sent == 0,
            r.failed == 0,
    {
        BroadcastTally { sent: 0, failed: 0 }
    }

    /// Counts one send.
    pub fn count(&mut self, delivered: bool)
        requires
            old(self).sent + old(self).failed < u64::MAX,
        ensures
            delivered ==> final(self).sent == old(self).sent + 1 && final(self).failed == old(
                self,
            ).failed,
            !delivered ==> final(self).failed == old(self).failed + 1 && final(self).sent == old(
                self,
            ).sent,
    {
        if delivered {
            self.sent = self.sent + 1;
        } else {
            self.failed = self.failed + 1;
        }
    }
}

} // verus!
