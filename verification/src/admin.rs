//! Administrator identity and the small decisions behind the admin
//! commands: reading the configured administrator list, splitting a
//! channel argument, and toggling the subscription setting.  The
//! environment and the store are read outside this library; their raw
//! values come in as strings.

use vstd::prelude::*;
use crate::scan::{
    digits_run, digits_value, is_digit, lemma_digits_run_bound, parse_digits_checked, spec_trim,
    chars_trim,
};
use crate::text::{chars_slice, find_char, first_char_from, str_eq};

verus! {

/// The signed integer a piece of text spells, if it spells one: an optional
/// sign, then digits only, within the 64-bit signed range.
pub open spec fn spec_parse_i64(s: Seq<char>) -> Option<int> {
    let negative = s.len() > 0 && s[0] == '-';
    let digits = if s.len() > 0 && (s[0] == '-' || s[0] == '+') {
        s.subrange(1, s.len() as int)
    } else {
        s
    };
    if digits.len() >= 1 && digits_run(digits, 0) == digits.len() {
        let v = digits_value(digits);
        let sv = if negative {
            -v
        } else {
            v
        };
        if i64::MIN <= sv <= i64::MAX {
            Some(sv)
        } else {
            None
        }
    } else {
        None
    }
}

/// Parses a piece of text as a signed 64-bit integer.
pub fn parse_i64(v: &Vec<char>) -> (r: Option<i64>)
    ensures
        match r {
            Some(x) => spec_parse_i64(v@) == Some(x as int),
            None => spec_parse_i64(v@) is None,
        },
{
    let n = v.len();
    let mut start: usize = 0;
    let mut negative = false;
    if n > 0 && v[0] == '-' {
        negative = true;
        start = 1;
    } else if n > 0 && v[0] == '+' {
        start = 1;
    }
    let digits = chars_slice(v, start, n);
    proof {
        if start == 0 {
            assert(digits@ =~= v@);
        }
    }
    let dn = digits.len();
    if dn == 0 {
        return None;
    }
    let run = crate::scan::digits_run_exec(&digits, 0);
    if run != dn {
        return None;
    }
    proof {
        lemma_digits_run_bound(digits@, 0);
        assert(digits@.subrange(0, dn as int) =~= digits@);
    }
    match parse_digits_checked(&digits, 0, dn) {
        None => {
            assert(digits_value(digits@) > u64::MAX as int);
            None
        },
        Some(x) => {
            if negative {
                if x <= 0x7fffffffffffffff {
                    Some(-(x as i64))
                } else if x == 0x8000000000000000 {
                    Some(i64::MIN)
                } else {
                    None
                }
            } else {
                if x <= 0x7fffffffffffffff {
                    Some(x as i64)
                } else {
                    None
                }
            }
        },
    }
}

/// The identity one comma-separated segment contributes: the integer it
/// spells after trimming, or nothing.
pub open spec fn spec_segment_id(seg: Seq<char>) -> Seq<int> {
    match spec_parse_i64(spec_trim(seg)) {
        Some(v) => seq![v],
        None => Seq::empty(),
    }
}

/// The administrator identities a comma-separated list spells: each
/// segment trimmed and parsed, the unparsable ones skipped.
pub open spec fn spec_admin_ids(s: Seq<char>) -> Seq<int>
    decreases s.len(),
{
    let c = first_char_from(s, ',', 0);
    if 0 <= c < s.len() {
        spec_segment_id(s.subrange(0, c)) + spec_admin_ids(s.subrange(c + 1, s.len() as int))
    } else {
        spec_segment_id(s)
    }
}

/// Parses the configured administrator list: identities separated by
/// commas, with whitespace tolerated and unparsable entries skipped.
pub fn parse_admin_ids(raw: &str) -> (ids: Vec<i64>)
    ensures
        ids@.map_values(|x: i64| x as int) == spec_admin_ids(raw@),
{
    let all = crate::text::str_to_chars(raw);
    let mut ids: Vec<i64> = Vec::new();
    let mut rest = all;
    proof {
        assert(ids@.map_values(|x: i64| x as int) =~= Seq::<int>::empty());
        assert(Seq::<int>::empty() + spec_admin_ids(rest@) =~= spec_admin_ids(raw@));
    }
    loop
        invariant
            spec_admin_ids(raw@) == ids@.map_values(|x: i64| x as int) + spec_admin_ids(rest@),
        ensures
            ids@.map_values(|x: i64| x as int) == spec_admin_ids(raw@),
        decreases rest@.len(),
    {
        let ghost old_ids = ids@;
        let n = rest.len();
        match find_char(&rest, ',') {
            Some(c) => {
                let seg = chars_slice(&rest, 0, c);
                push_segment(&mut ids, &seg);
                proof {
                    assert((old_ids.map_values(|x: i64| x as int) + spec_segment_id(seg@))
                        + spec_admin_ids(rest@.subrange(c + 1, n as int)) =~= old_ids.map_values(
                        |x: i64| x as int,
                    ) + (spec_segment_id(seg@) + spec_admin_ids(rest@.subrange(c + 1, n as int))));
                }
                let next = chars_slice(&rest, c + 1, n);
                rest = next;
            },
            None => {
                push_segment(&mut ids, &rest);
                assert(ids@.map_values(|x: i64| x as int) =~= spec_admin_ids(raw@));
                return ids;
            },
        }
    }
}

/// Adds one segment's identity, if it spells one.
fn push_segment(ids: &mut Vec<i64>, seg: &Vec<char>)
    ensures
        final(ids)@.map_values(|x: i64| x as int) == old(ids)@.map_values(|x: i64| x as int)
            + spec_segment_id(seg@),
{
    let ghost before = ids@;
    let trimmed = chars_trim(seg);
    match parse_i64(&trimmed) {
        Some(v) => {
            ids.push(v);
            assert(ids@.map_values(|x: i64| x as int) =~= before.map_values(|x: i64| x as int)
                + spec_segment_id(seg@));
        },
        None => {
            assert(ids@.map_values(|x: i64| x as int) =~= before.map_values(|x: i64| x as int)
                + spec_segment_id(seg@));
        },
    }
}

/// Whether the sender is one of the configured administrators.
pub fn is_admin(admin_ids: &Vec<i64>, chat_id: i64) -> (r: bool)
    ensures
        r == admin_ids@.contains(chat_id),
{
    let n = admin_ids.len();
    let mut i: usize = 0;
    while i < n
        invariant
            i <= n,
            n == admin_ids@.len(),
            forall|k: int| 0 <= k < i ==> admin_ids@[k] != chat_id,
        decreases n - i,
    {
        if admin_ids[i] == chat_id {
            assert(admin_ids@.contains(chat_id));
            return true;
        }
        i = i + 1;
    }
    assert(!admin_ids@.contains(chat_id));
    false
}

/// Splits a channel argument into identity and name at the first space; an
/// argument without a space is rejected.
pub fn split_channel_arg(id_name: &str) -> (r: Option<(String, String)>)
    ensures
        ({
            let s = id_name@;
            let c = first_char_from(s, ' ', 0);
            match r {
                Some(pair) => 0 <= c < s.len() && pair.0@ == s.subrange(0, c) && pair.1@
                    == s.subrange(c + 1, s.len() as int),
                None => c == -1,
            }
        }),
{
    let chars = crate::text::str_to_chars(id_name);
    let n = chars.len();
    match find_char(&chars, ' ') {
        Some(c) => {
            let head = chars_slice(&chars, 0, c);
            let tail = chars_slice(&chars, c + 1, n);
            Some((crate::text::chars_to_string(&head), crate::text::chars_to_string(&tail)))
        },
        None => None,
    }
}

/// The subscription-gate setting a stored row spells: required unless the
/// row reads exactly `true` getting flipped, that is, the new value is the
/// negation of whether the row reads `true`.
pub fn toggle_subscription_value(current: &str) -> (r: bool)
    ensures
        r == !(current@ == "true"@),
{
    !str_eq(current, "true")
}

/// The subscription setting as stored: it holds only when the stored text
/// is `true`, and with nothing on record the subscription is demanded.
pub fn subscription_required_from(row: Option<&String>) -> (r: bool)
    ensures
        r == match row {
            Some(v) => v@ == "true"@,
            None => true,
        },
{
    match row {
        Some(v) => str_eq(v.as_str(), "true"),
        None => true,
    }
}

} // verus!
