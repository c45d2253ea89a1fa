//! Classification of free-text diagnostics.  The extraction tool and the
//! transports only offer text, so at this boundary known phrases decide the
//! user-facing category, the cooldown to honour, and whether a connection
//! was lost.  The matching is exact over the text's characters; the phrases
//! themselves are a known fragility should the external tools change their
//! wording.

use vstd::prelude::*;
use crate::scan::{digits_run, digits_value, is_digit, lemma_digits_run_bound};
use crate::text::{chars_contain, chars_match_at, match_at, seq_contains, str_to_chars};

verus! {

/// User-facing category of a failed download.
#[derive(Clone, Copy, Debug, PartialEq, Eq, Structural)]
pub enum FailureKind {
    /// The source demands an account before it hands the media out.
    SignInRequired,
    /// The media is gone or no matching format exists.
    Unavailable,
    /// The media is private.
    Private,
    /// The media is age-restricted.
    AgeRestricted,
    /// The source's answer could not be understood.
    MalformedResponse,
    /// The download ran out of time.
    Timeout,
    /// Anything else.
    Generic,
}

/// The category that the known phrases assign to a diagnostic text, checked
/// in a fixed order; text matching no phrase is `Generic`.
pub open spec fn spec_classify(m: Seq<char>) -> FailureKind {
    if seq_contains(m, "Sign in required"@) {
        FailureKind::SignInRequired
    } else if seq_contains(m, "Video unavailable"@) || seq_contains(
        m,
        "Requested format is not available"@,
    ) {
        FailureKind::Unavailable
    } else if seq_contains(m, "Private video"@) {
        FailureKind::Private
    } else if seq_contains(m, "This video is age-restricted"@) {
        FailureKind::AgeRestricted
    } else if seq_contains(m, "Failed to parse"@) || seq_contains(m, "JSON"@) {
        FailureKind::MalformedResponse
    } else if seq_contains(m, "timeout"@) {
        FailureKind::Timeout
    } else {
        FailureKind::Generic
    }
}

/// Classifies the diagnostic text of a failed download.
pub fn classify_download_error(message: &str) -> (k: FailureKind)
    ensures
        k == spec_classify(message@),
{
    let m = str_to_chars(message);
    let sign_in = str_to_chars("Sign in required");
    if chars_contain(&m, &sign_in) {
        return FailureKind::SignInRequired;
    }
    let unavailable = str_to_chars("Video unavailable");
    let no_format = str_to_chars("Requested format is not available");
    if chars_contain(&m, &unavailable) || chars_contain(&m, &no_format) {
        return FailureKind::Unavailable;
    }
    let private = str_to_chars("Private video");
    if chars_contain(&m, &private) {
        return FailureKind::Private;
    }
    let age = str_to_chars("This video is age-restricted");
    if chars_contain(&m, &age) {
        return FailureKind::AgeRestricted;
    }
    let parse_failed = str_to_chars("Failed to parse");
    let json = str_to_chars("JSON");
    if chars_contain(&m, &parse_failed) || chars_contain(&m, &json) {
        return FailureKind::MalformedResponse;
    }
    let timeout = str_to_chars("timeout");
    if chars_contain(&m, &timeout) {
        return FailureKind::Timeout;
    }
    FailureKind::Generic
}

/// A diagnostic that mentions a private video, and none of the phrases
/// ranked before that category, is classified private — the category's own
/// notice follows, never the generic one.  The exclusions are forced by the
/// fixed matching order: a text carrying an earlier-ranked phrase as well
/// takes that phrase's category.
pub proof fn law_private_classification(m: Seq<char>)
    requires
        seq_contains(m, "Private video"@),
        !seq_contains(m, "Sign in required"@),
        !seq_contains(m, "Video unavailable"@),
        !seq_contains(m, "Requested format is not available"@),
    ensures
        spec_classify(m) == FailureKind::Private,
        spec_failure_notice(spec_classify(m), m) != spec_failure_notice(FailureKind::Generic, m),
{
    reveal_strlit("\u{1f512} Video is private and cannot be downloaded");
    reveal_strlit("\u{274c} Failed to download video: ");
    let private_text = spec_failure_notice(FailureKind::Private, m);
    let generic_text = spec_failure_notice(FailureKind::Generic, m);
    if private_text == generic_text {
        assert(private_text[0] == '\u{1f512}');
        assert(generic_text[0] == '\u{274c}');
    }
}

/// An error text reports a transport-level disconnect: the connection read
/// nothing, was reset, or was lost.
pub open spec fn spec_is_disconnect(m: Seq<char>) -> bool {
    ||| seq_contains(m, "read 0 bytes"@)
    ||| seq_contains(m, "ConnectionReset"@)
    ||| seq_contains(m, "Connection lost"@)
}

/// Decides whether an error text reports a transport-level disconnect.
pub fn is_disconnect_error(message: &str) -> (r: bool)
    ensures
        r == spec_is_disconnect(message@),
{
    let m = str_to_chars(message);
    let zero = str_to_chars("read 0 bytes");
    if chars_contain(&m, &zero) {
        return true;
    }
    let reset = str_to_chars("ConnectionReset");
    if chars_contain(&m, &reset) {
        return true;
    }
    let lost = str_to_chars("Connection lost");
    chars_contain(&m, &lost)
}

/// A progress message was invalidated on the remote side: edits of it can
/// never succeed again.
pub open spec fn spec_is_message_invalidated(m: Seq<char>) -> bool {
    ||| seq_contains(m, "MESSAGE_ID_INVALID"@)
    ||| seq_contains(m, "message to edit not found"@)
    ||| seq_contains(m, "message can't be edited"@)
}

/// Decides whether an edit failure means the message is gone for good.
pub fn is_message_invalidated(message: &str) -> (r: bool)
    ensures
        r == spec_is_message_invalidated(message@),
{
    let m = str_to_chars(message);
    let invalid = str_to_chars("MESSAGE_ID_INVALID");
    if chars_contain(&m, &invalid) {
        return true;
    }
    let not_found = str_to_chars("message to edit not found");
    if chars_contain(&m, &not_found) {
        return true;
    }
    let not_editable = str_to_chars("message can't be edited");
    chars_contain(&m, &not_editable)
}

// ---------------------------------------------------------------------------
// The flood-control signal.
// ---------------------------------------------------------------------------

/// A flood-control token begins at `i`: the tag followed by at least one
/// digit.
pub open spec fn flood_at(s: Seq<char>, i: int) -> bool {
    match_at(s, "FLOOD_WAIT_"@, i) && digits_run(s, i + 11) >= 1
}

/// Position of the first flood-control token at or after `i`, or -1.
pub open spec fn first_flood_from(s: Seq<char>, i: int) -> int
    decreases s.len() - i,
{
    if !(0 <= i <= s.len()) {
        -1
    } else if i == s.len() {
        -1
    } else if flood_at(s, i) {
        i
    } else {
        first_flood_from(s, i + 1)
    }
}

/// The number of seconds that the first flood-control token of `s` demands;
/// `None` when no token occurs or its digits exceed 64 bits.
pub open spec fn spec_flood_wait(s: Seq<char>) -> Option<int> {
    let i = first_flood_from(s, 0);
    if i >= 0 {
        let v = digits_value(s.subrange(i + 11, i + 11 + digits_run(s, i + 11)));
        if v <= u64::MAX as int {
            Some(v)
        } else {
            None
        }
    } else {
        None
    }
}

/// Checks for a flood-control token at `i`.
fn flood_check(v: &Vec<char>, i: usize) -> (r: bool)
    requires
        i <= v@.len(),
    ensures
        r == flood_at(v@, i as int),
{
    let tag = str_to_chars("FLOOD_WAIT_");
    proof {
        reveal_strlit("FLOOD_WAIT_");
    }
    if v.len() - i < tag.len() {
        return false;
    }
    if !chars_match_at(v, &tag, i) {
        return false;
    }
    if i + 11 < v.len() {
        let u = v[i + 11] as u32;
        if 48 <= u && u <= 57 {
            proof {
                lemma_digits_run_bound(v@, i + 12);
                assert(digits_run(v@, i + 11) == 1 + digits_run(v@, i + 12));
            }
            return true;
        }
    }
    assert(digits_run(v@, i + 11) == 0);
    false
}

/// Extracts the seconds demanded by the first flood-control token of an
/// error text, if one occurs and its digits fit 64 bits.
pub fn extract_flood_wait(error_str: &str) -> (r: Option<u64>)
    ensures
        match r {
            Some(secs) => spec_flood_wait(error_str@) == Some(secs as int),
            None => spec_flood_wait(error_str@) is None,
        },
{
    let v = str_to_chars(error_str);
    proof {
        reveal_strlit("FLOOD_WAIT_");
    }
    let n = v.len();
    let mut i: usize = 0;
    while i < n
        invariant
            i <= n,
            n == v@.len(),
            v@ == error_str@,
            first_flood_from(v@, 0) == first_flood_from(v@, i as int),
        decreases n - i,
    {
        if flood_check(&v, i) {
            assert(first_flood_from(v@, 0) == i);
            proof {
                lemma_digits_run_bound(v@, i + 11);
            }
            let k = crate::scan::digits_run_exec(&v, i + 11);
            return crate::scan::parse_digits_checked(&v, i + 11, i + 11 + k);
        }
        i = i + 1;
    }
    assert(first_flood_from(v@, 0) == -1);
    None
}

/// How many characters of the underlying diagnostic the generic failure
/// notice quotes.
pub const GENERIC_DETAIL_CHARS: usize = 100;

/// The user-facing notice for a failed download: a fixed message per
/// category, and for the generic category the message with the first
/// hundred characters of the diagnostic appended.
pub open spec fn spec_failure_notice(k: FailureKind, detail: Seq<char>) -> Seq<char> {
    match k {
        FailureKind::SignInRequired => "\u{1f512} Video requires sign in to TikTok - currently unavailable for download"@,
        FailureKind::Unavailable => "\u{1f6ab} Video is unavailable or has been removed"@,
        FailureKind::Private => "\u{1f512} Video is private and cannot be downloaded"@,
        FailureKind::AgeRestricted => "\u{1f51e} Video is age-restricted and cannot be downloaded"@,
        FailureKind::MalformedResponse => "\u{1f527} Error processing TikTok API response. Please try again later."@,
        FailureKind::Timeout => "\u{23f0} Download timeout - please try again"@,
        FailureKind::Generic => "\u{274c} Failed to download video: "@ + detail.subrange(
            0,
            if detail.len() < GENERIC_DETAIL_CHARS as int {
                detail.len() as int
            } else {
                GENERIC_DETAIL_CHARS as int
            },
        ),
    }
}

/// Builds the user-facing notice for a failed download.
pub fn failure_notice(k: FailureKind, detail: &str) -> (r: String)
    ensures
        r@ == spec_failure_notice(k, detail@),
{
    match k {
        FailureKind::SignInRequired => {
            "\u{1f512} Video requires sign in to TikTok - currently unavailable for download".to_owned()
        },
        FailureKind::Unavailable => {
            "\u{1f6ab} Video is unavailable or has been removed".to_owned()
        },
        FailureKind::Private => "\u{1f512} Video is private and cannot be downloaded".to_owned(),
        FailureKind::AgeRestricted => {
            "\u{1f51e} Video is age-restricted and cannot be downloaded".to_owned()
        },
        FailureKind::MalformedResponse => {
            "\u{1f527} Error processing TikTok API response. Please try again later.".to_owned()
        },
        FailureKind::Timeout => "\u{23f0} Download timeout - please try again".to_owned(),
        FailureKind::Generic => {
            let chars = str_to_chars(detail);
            let cut = if chars.len() < GENERIC_DETAIL_CHARS {
                chars.len()
            } else {
                GENERIC_DETAIL_CHARS
            };
            let head = crate::text::chars_slice(&chars, 0, cut);
            let head_s = crate::text::chars_to_string(&head);
            let mut s = "\u{274c} Failed to download video: ".to_owned();
            s.append(head_s.as_str());
            s
        },
    }
}

/// Bound, in time units, on how long a flood-control cooldown is honoured.
pub const FLOOD_WAIT_CAP: u64 = 30;

/// The cooldown actually slept before a retry: the demanded seconds, capped.
pub fn capped_flood_sleep(secs: u64) -> (r: u64)
    ensures
        r == if secs < FLOOD_WAIT_CAP {
            secs
        } else {
            FLOOD_WAIT_CAP
        },
{
    if secs < FLOOD_WAIT_CAP {
        secs
    } else {
        FLOOD_WAIT_CAP
    }
}

} // verus!
