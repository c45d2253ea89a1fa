//! The progress reporter: one mutable status message per task.  Updates are
//! throttled — a new percentage is rendered only after a minimum interval
//! and only for a five-point jump or completion — and an externally
//! invalidated message is dropped and, while work remains, replaced.  The
//! message edits themselves happen at the chat boundary outside this
//! library; this state machine decides them.

use vstd::prelude::*;
use vstd::string::StringExecFns;
use crate::classify::{is_message_invalidated, spec_is_message_invalidated};
use crate::scan::{digit_char, digit_char_exec, spec_elapsed};
use crate::text::chars_to_string;

verus! {

/// Smallest spacing, in milliseconds, between two rendered updates.
pub const MIN_UPDATE_INTERVAL_MS: u64 = 3000;

/// Smallest percentage jump that is worth rendering before completion.
pub const MIN_PERCENT_STEP: u8 = 5;

/// Subtraction that stops at zero.
pub open spec fn sat_sub(a: int, b: int) -> int {
    if a >= b {
        a - b
    } else {
        0
    }
}

/// The status message of one task.
pub struct ProgressBar {
    /// The recipient whose chat carries the status message.
    pub chat_id: i64,
    /// Handle of the live status message, if one exists.
    pub message_id: Option<u64>,
    /// Instant of the last rendered update.
    pub last_update_ms: Option<u64>,
    /// Last rendered percentage.
    pub last_percentage: u8,
}

/// An update is rendered when no update was rendered yet, or when the
/// minimum interval has passed and the percentage either jumped by the
/// minimum step or reached completion.  Completion too waits out the
/// interval.
pub open spec fn spec_should_update(bar: ProgressBar, pct: int, now: int) -> bool {
    match bar.last_update_ms {
        Some(l) => spec_elapsed(now, l as int) >= MIN_UPDATE_INTERVAL_MS as int && (sat_sub(
            pct,
            bar.last_percentage as int,
        ) >= MIN_PERCENT_STEP as int || pct == 100),
        None => true,
    }
}

impl ProgressBar {
    /// A reporter for the given chat, with no message yet.
    pub fn new(chat_id: i64) -> (r: ProgressBar)
        ensures
            r.chat_id == chat_id,
            r.message_id is None,
            r.last_update_ms is None,
            r.last_percentage == 0,
    {
        ProgressBar { chat_id, message_id: None, last_update_ms: None, last_percentage: 0 }
    }

    /// A reporter that belongs to no chat: its updates go nowhere.
    pub fn new_silent() -> (r: ProgressBar)
        ensures
            r.chat_id == 0,
            r.message_id is None,
            r.last_update_ms is None,
            r.last_percentage == 0,
    {
        ProgressBar::new(0)
    }

    /// Notes that the initial status message was created.
    pub fn start(&mut self, message_id: u64, now_ms: u64)
        ensures
            final(self).chat_id == old(self).chat_id,
            final(self).message_id == Some(message_id),
            final(self).last_update_ms == Some(now_ms),
            final(self).last_percentage == old(self).last_percentage,
    {
        self.message_id = Some(message_id);
        self.last_update_ms = Some(now_ms);
    }

    /// Decides whether the given percentage is rendered now.
    pub fn should_update(&self, percentage: u8, now_ms: u64) -> (r: bool)
        ensures
            r == spec_should_update(*self, percentage as int, now_ms as int),
    {
        match self.last_update_ms {
            Some(l) => {
                let elapsed = if now_ms >= l {
                    now_ms - l
                } else {
                    0
                };
                let jump = if percentage >= self.last_percentage {
                    percentage - self.last_percentage
                } else {
                    0
                };
                elapsed >= MIN_UPDATE_INTERVAL_MS && (jump >= MIN_PERCENT_STEP || percentage
                    == 100)
            },
            None => true,
        }
    }

    /// Applies the throttling rule: when the percentage is to be rendered,
    /// the rendering is recorded and an edit is due; otherwise nothing
    /// changes and no edit happens.
    pub fn update(&mut self, percentage: u8, now_ms: u64) -> (render: bool)
        ensures
            render == spec_should_update(*old(self), percentage as int, now_ms as int),
            render ==> final(self).last_update_ms == Some(now_ms) && final(self).last_percentage
                == percentage && final(self).message_id == old(self).message_id
                && final(self).chat_id == old(self).chat_id,
            !render ==> *final(self) == *old(self),
    {
        if self.should_update(percentage, now_ms) {
            self.last_update_ms = Some(now_ms);
            self.last_percentage = percentage;
            true
        } else {
            false
        }
    }

    /// Handles a failed edit: an invalidated message is forgotten and, if
    /// the work is not complete, a replacement is due; any other failure
    /// changes nothing.
    pub fn on_edit_failed(&mut self, error: &str, percentage: u8) -> (replace: bool)
        ensures
            spec_is_message_invalidated(error@) ==> final(self).message_id is None && replace == (
            percentage < 100),
            !spec_is_message_invalidated(error@) ==> *final(self) == *old(self) && !replace,
            final(self).chat_id == old(self).chat_id,
            final(self).last_update_ms == old(self).last_update_ms,
            final(self).last_percentage == old(self).last_percentage,
    {
        if is_message_invalidated(error) {
            self.message_id = None;
            percentage < 100
        } else {
            false
        }
    }

    /// Notes that a replacement (or first) status message was created.
    pub fn attach_message(&mut self, message_id: u64)
        ensures
            final(self).message_id == Some(message_id),
            final(self).chat_id == old(self).chat_id,
            final(self).last_update_ms == old(self).last_update_ms,
            final(self).last_percentage == old(self).last_percentage,
    {
        self.message_id = Some(message_id);
    }

    /// Tears the status message down: hands back the handle to delete, if
    /// one was live, and forgets it.
    pub fn delete(&mut self) -> (msg: Option<u64>)
        ensures
            msg == old(self).message_id,
            final(self).message_id is None,
            final(self).chat_id == old(self).chat_id,
            final(self).last_update_ms == old(self).last_update_ms,
            final(self).last_percentage == old(self).last_percentage,
    {
        let msg = self.message_id;
        self.message_id = None;
        msg
    }
}

/// An update is rendered exactly when the minimum interval has passed and
/// the percentage either jumped by the minimum step or reached completion.
pub proof fn law_progress_throttle(bar: ProgressBar, pct: int, now: int, l: u64)
    requires
        bar.last_update_ms == Some(l),
    ensures
        spec_should_update(bar, pct, now) <==> (spec_elapsed(now, l as int)
            >= MIN_UPDATE_INTERVAL_MS as int && (sat_sub(pct, bar.last_percentage as int)
            >= MIN_PERCENT_STEP as int || pct == 100)),
{
}

/// Completion is rendered as soon as the minimum interval has passed, with
/// no jump demanded of it.
pub proof fn law_completion_renders_after_interval(bar: ProgressBar, now: int, l: u64)
    requires
        bar.last_update_ms == Some(l),
        spec_elapsed(now, l as int) >= MIN_UPDATE_INTERVAL_MS as int,
    ensures
        spec_should_update(bar, 100, now),
{
}

// ---------------------------------------------------------------------------
// Rendering.
// ---------------------------------------------------------------------------

/// Decimal spelling of a percentage value.
pub open spec fn spec_u8_dec(p: int) -> Seq<char> {
    if p >= 100 {
        seq![digit_char(p / 100), digit_char((p / 10) % 10), digit_char(p % 10)]
    } else if p >= 10 {
        seq![digit_char(p / 10), digit_char(p % 10)]
    } else {
        seq![digit_char(p)]
    }
}

/// Spells a percentage value in decimal.
fn u8_dec_chars(p: u8) -> (v: Vec<char>)
    ensures
        v@ == spec_u8_dec(p as int),
{
    let mut v: Vec<char> = Vec::new();
    if p >= 100 {
        v.push(digit_char_exec(p / 100));
        v.push(digit_char_exec((p / 10) % 10));
        v.push(digit_char_exec(p % 10));
    } else if p >= 10 {
        v.push(digit_char_exec(p / 10));
        v.push(digit_char_exec(p % 10));
    } else {
        v.push(digit_char_exec(p));
    }
    assert(v@ =~= spec_u8_dec(p as int));
    v
}

/// The drawn bar: twenty cells between end caps, one cell filled for every
/// five percent.
pub open spec fn spec_bar(p: int) -> Seq<char> {
    seq!['\u{2593}'] + Seq::new(20, |i: int| if i < p / 5 {
        '\u{2588}'
    } else {
        '\u{2591}'
    }) + seq!['\u{2593}']
}

/// Draws the bar for a percentage.
fn bar_chars(p: u8) -> (v: Vec<char>)
    ensures
        v@ == spec_bar(p as int),
{
    let filled = p / 5;
    let mut v: Vec<char> = Vec::new();
    v.push('\u{2593}');
    let mut i: u8 = 0;
    while i < 20
        invariant
            i <= 20,
            filled == p / 5,
            v@.len() == i + 1,
            v@[0] == '\u{2593}',
            forall|k: int| 1 <= k <= i ==> v@[k] == (if k - 1 < p as int / 5 {
                '\u{2588}'
            } else {
                '\u{2591}'
            }),
        decreases 20 - i,
    {
        if i < filled {
            v.push('\u{2588}');
        } else {
            v.push('\u{2591}');
        }
        i = i + 1;
    }
    v.push('\u{2593}');
    assert(v@ =~= spec_bar(p as int));
    v
}

/// The whole rendered status text for a percentage, with an optional extra
/// line.
pub open spec fn spec_progress_text(p: int, extra: Option<Seq<char>>) -> Seq<char> {
    let base = "\u{1f504} Processing "@ + spec_u8_dec(p) + "% "@ + spec_bar(p);
    match extra {
        Some(e) => base + "\n"@ + e,
        None => base,
    }
}

impl ProgressBar {
    /// Renders the status text for a percentage, with an optional extra
    /// line of detail.
    pub fn create_progressbar(&self, percentage: u8, extrainfo: Option<&str>) -> (r: String)
        ensures
            r@ == spec_progress_text(
                percentage as int,
                match extrainfo {
                    Some(e) => Some(e@),
                    None => None,
                },
            ),
    {
        let mut s = "\u{1f504} Processing ".to_owned();
        let dec = u8_dec_chars(percentage);
        let dec_s = chars_to_string(&dec);
        s.append(dec_s.as_str());
        s.append("% ");
        let bar = bar_chars(percentage);
        let bar_s = chars_to_string(&bar);
        s.append(bar_s.as_str());
        match extrainfo {
            Some(info) => {
                s.append("\n");
                s.append(info);
            },
            None => {},
        }
        s
    }
}

} // verus!
