//! Impersonation profiles.  The extraction tool lists the client
//! fingerprints it can present; this module parses that listing — three
//! header lines, then one line per profile with client, platform and
//! source columns — and validates the profile an administrator picks.
//! Profiles whose source is unavailable are dropped; a stored profile is
//! kept in lowercase.

use vstd::prelude::*;
use crate::scan::{nonws_run, nonws_run_exec, ws_run, ws_run_exec};
use crate::text::{
    chars_contain, chars_slice, chars_to_string, find_char, first_char_from, seq_contains,
    str_to_chars,
};

verus! {

/// The lowercase counterpart of a character: letters fold, everything else
/// stays.
pub open spec fn lower_char(c: char) -> char {
    if 65 <= c as u32 <= 90 {
        (c as u32 + 32) as char
    } else {
        c
    }
}

/// The lowercase counterpart of a text.
pub open spec fn lower_seq(t: Seq<char>) -> Seq<char> {
    Seq::new(t.len(), |i: int| lower_char(t[i]))
}

/// Folds one character to lowercase.
pub fn lower_char_exec(c: char) -> (r: char)
    ensures
        r == lower_char(c),
{
    let u = c as u32;
    if 65 <= u && u <= 90 {
        ((u + 32) as u8) as char
    } else {
        c
    }
}

/// Folds a text to lowercase.
pub fn lower_chars(v: &Vec<char>) -> (r: Vec<char>)
    ensures
        r@ == lower_seq(v@),
{
    let n = v.len();
    let mut r: Vec<char> = Vec::new();
    let mut i: usize = 0;
    while i < n
        invariant
            i <= n,
            n == v@.len(),
            r@.len() == i,
            forall|k: int| 0 <= k < i ==> r@[k] == lower_char(v@[k]),
        decreases n - i,
    {
        r.push(lower_char_exec(v[i]));
        i = i + 1;
    }
    assert(r@ =~= lower_seq(v@));
    r
}

/// One line of `s` with a trailing carriage return removed.
pub open spec fn strip_cr(x: Seq<char>) -> Seq<char> {
    if x.len() > 0 && x.last() == '\r' {
        x.drop_last()
    } else {
        x
    }
}

/// The lines of a text, split at newlines, each without its trailing
/// carriage return; a trailing newline closes the last line.
pub open spec fn spec_lines(s: Seq<char>) -> Seq<Seq<char>>
    decreases s.len(),
{
    if s.len() == 0 {
        Seq::empty()
    } else {
        let c = first_char_from(s, '\n', 0);
        if 0 <= c < s.len() {
            seq![strip_cr(s.subrange(0, c))] + spec_lines(s.subrange(c + 1, s.len() as int))
        } else {
            seq![strip_cr(s)]
        }
    }
}

/// Splits a text into lines.
pub fn split_lines(v: &Vec<char>) -> (r: Vec<Vec<char>>)
    ensures
        r@.map_values(|l: Vec<char>| l@) == spec_lines(v@),
{
    let mut out: Vec<Vec<char>> = Vec::new();
    let mut rest = chars_slice(v, 0, v.len());
    proof {
        assert(rest@ =~= v@);
        assert(out@.map_values(|l: Vec<char>| l@) =~= Seq::<Seq<char>>::empty());
        assert(Seq::<Seq<char>>::empty() + spec_lines(rest@) =~= spec_lines(v@));
    }
    loop
        invariant
            spec_lines(v@) == out@.map_values(|l: Vec<char>| l@) + spec_lines(rest@),
        ensures
            out@.map_values(|l: Vec<char>| l@) == spec_lines(v@),
        decreases rest@.len(),
    {
        let ghost old_out = out@;
        let n = rest.len();
        if n == 0 {
            assert(out@.map_values(|l: Vec<char>| l@) =~= spec_lines(v@));
            return out;
        }
        match find_char(&rest, '\n') {
            Some(c) => {
                let line = strip_cr_exec(chars_slice(&rest, 0, c));
                out.push(line);
                proof {
                    assert(out@.map_values(|l: Vec<char>| l@) =~= old_out.map_values(
                        |l: Vec<char>| l@,
                    ) + seq![strip_cr(rest@.subrange(0, c as int))]);
                    assert((old_out.map_values(|l: Vec<char>| l@) + seq![
                        strip_cr(rest@.subrange(0, c as int)),
                    ]) + spec_lines(rest@.subrange(c + 1, n as int)) =~= old_out.map_values(
                        |l: Vec<char>| l@,
                    ) + (seq![strip_cr(rest@.subrange(0, c as int))] + spec_lines(
                        rest@.subrange(c + 1, n as int),
                    )));
                }
                let next = chars_slice(&rest, c + 1, n);
                rest = next;
            },
            None => {
                let line = strip_cr_exec(chars_slice(&rest, 0, n));
                out.push(line);
                proof {
                    assert(rest@.subrange(0, n as int) =~= rest@);
                    assert(out@.map_values(|l: Vec<char>| l@) =~= spec_lines(v@));
                }
                return out;
            },
        }
    }
}

/// Removes a trailing carriage return.
fn strip_cr_exec(x: Vec<char>) -> (r: Vec<char>)
    ensures
        r@ == strip_cr(x@),
{
    let n = x.len();
    if n > 0 && x[n - 1] == '\r' {
        let r = chars_slice(&x, 0, n - 1);
        assert(x@.subrange(0, n - 1) =~= x@.drop_last());
        r
    } else {
        x
    }
}

/// How many header lines of the tool's listing are skipped.
pub const LISTING_HEADER_LINES: usize = 3;

/// The profile one listing line contributes: its first three columns are
/// client, platform and source; a line with fewer columns, or whose source
/// is unavailable, contributes nothing.  The profile is the client, or
/// client and platform joined by a colon when a platform is named; it is
/// stored lowercase, described by its original spelling and source.
pub open spec fn spec_line_target(line: Seq<char>) -> Option<(Seq<char>, Seq<char>)> {
    let c_start = ws_run(line, 0);
    let c_end = c_start + nonws_run(line, c_start);
    let o_start = c_end + ws_run(line, c_end);
    let o_end = o_start + nonws_run(line, o_start);
    let s_start = o_end + ws_run(line, o_end);
    let s_end = s_start + nonws_run(line, s_start);
    if c_end > c_start && o_end > o_start && s_end > s_start {
        let client = line.subrange(c_start, c_end);
        let os = line.subrange(o_start, o_end);
        let source = line.subrange(s_start, s_end);
        if seq_contains(source, "unavailable"@) {
            None
        } else {
            let target = if os == seq!['-'] {
                client
            } else {
                client + seq![':'] + os
            };
            Some((lower_seq(target), target + seq![' '] + source))
        }
    } else {
        None
    }
}

/// Reads one listing line.
fn line_target(line: &Vec<char>) -> (r: Option<(Vec<char>, Vec<char>)>)
    ensures
        match r {
            Some(pair) => spec_line_target(line@) == Some((pair.0@, pair.1@)),
            None => spec_line_target(line@) is None,
        },
{
    let ln = line.len();
    let c_start = ws_run_exec(line, 0);
    let c_len = nonws_run_exec(line, c_start);
    let c_end = c_start + c_len;
    let o_gap = ws_run_exec(line, c_end);
    let o_start = c_end + o_gap;
    let o_len = nonws_run_exec(line, o_start);
    let o_end = o_start + o_len;
    let s_gap = ws_run_exec(line, o_end);
    let s_start = o_end + s_gap;
    let s_len = nonws_run_exec(line, s_start);
    let s_end = s_start + s_len;
    if !(c_len > 0 && o_len > 0 && s_len > 0) {
        return None;
    }
    let client = chars_slice(line, c_start, c_end);
    let os = chars_slice(line, o_start, o_end);
    let source = chars_slice(line, s_start, s_end);
    let unavailable = str_to_chars("unavailable");
    if chars_contain(&source, &unavailable) {
        return None;
    }
    let is_dash = os.len() == 1 && os[0] == '-';
    proof {
        if is_dash {
            assert(os@ =~= seq!['-']);
        } else {
            if os@ == seq!['-'] {
                assert(os@.len() == 1 && os@[0] == '-');
                assert(false);
            }
        }
    }
    let mut target = client;
    if !is_dash {
        target.push(':');
        append_all(&mut target, &os);
        assert(target@ =~= line@.subrange(c_start as int, c_end as int) + seq![':'] + os@);
    }
    let lowered = lower_chars(&target);
    let mut description = chars_slice(&target, 0, target.len());
    assert(description@ =~= target@);
    description.push(' ');
    append_all(&mut description, &source);
    assert(description@ =~= target@ + seq![' '] + source@);
    Some((lowered, description))
}

/// Appends every character of `src` to `dst`.
fn append_all(dst: &mut Vec<char>, src: &Vec<char>)
    ensures
        final(dst)@ == old(dst)@ + src@,
{
    let n = src.len();
    let mut k: usize = 0;
    while k < n
        invariant
            k <= n,
            n == src@.len(),
            dst@ == old(dst)@ + src@.subrange(0, k as int),
        decreases n - k,
    {
        dst.push(src[k]);
        k = k + 1;
        assert(dst@ =~= old(dst)@ + src@.subrange(0, k as int));
    }
    assert(dst@ =~= old(dst)@ + src@);
}

/// The profiles a whole listing offers, reading every line after the
/// header.
pub open spec fn spec_targets(lines: Seq<Seq<char>>, i: int) -> Seq<(Seq<char>, Seq<char>)>
    decreases lines.len() - i,
{
    if !(0 <= i < lines.len()) {
        Seq::empty()
    } else {
        match spec_line_target(lines[i]) {
            Some(pair) => seq![pair] + spec_targets(lines, i + 1),
            None => spec_targets(lines, i + 1),
        }
    }
}

/// Parses the tool's fingerprint listing into the offered profiles, each as
/// the lowercase profile name and its description.
pub fn parse_impersonate_targets(output: &str) -> (targets: Vec<(String, String)>)
    ensures
        targets@.map_values(|p: (String, String)| (p.0@, p.1@)) == spec_targets(
            spec_lines(output@),
            LISTING_HEADER_LINES as int,
        ),
{
    let all = str_to_chars(output);
    let lines = split_lines(&all);
    let ghost line_views = lines@.map_values(|l: Vec<char>| l@);
    let n = lines.len();
    let mut targets: Vec<(String, String)> = Vec::new();
    let mut i: usize = LISTING_HEADER_LINES;
    if n < i {
        assert(targets@.map_values(|p: (String, String)| (p.0@, p.1@)) =~= spec_targets(
            line_views,
            LISTING_HEADER_LINES as int,
        ));
        return targets;
    }
    while i < n
        invariant
            LISTING_HEADER_LINES <= i <= n,
            n == lines@.len(),
            line_views == lines@.map_values(|l: Vec<char>| l@),
            spec_targets(line_views, LISTING_HEADER_LINES as int) == targets@.map_values(
                |p: (String, String)| (p.0@, p.1@),
            ) + spec_targets(line_views, i as int),
        decreases n - i,
    {
        let ghost old_targets = targets@;
        match line_target(&lines[i]) {
            Some(pair) => {
                let s0 = chars_to_string(&pair.0);
                let s1 = chars_to_string(&pair.1);
                targets.push((s0, s1));
                proof {
                    assert(targets@.map_values(|p: (String, String)| (p.0@, p.1@)) =~= old_targets
                        .map_values(|p: (String, String)| (p.0@, p.1@)) + seq![
                        (pair.0@, pair.1@),
                    ]);
                    assert((old_targets.map_values(|p: (String, String)| (p.0@, p.1@)) + seq![
                        (pair.0@, pair.1@),
                    ]) + spec_targets(line_views, i + 1) =~= old_targets.map_values(
                        |p: (String, String)| (p.0@, p.1@),
                    ) + (seq![(pair.0@, pair.1@)] + spec_targets(line_views, i + 1)));
                }
            },
            None => {},
        }
        i = i + 1;
    }
    assert(spec_targets(line_views, n as int) =~= Seq::<(Seq<char>, Seq<char>)>::empty());
    assert(targets@.map_values(|p: (String, String)| (p.0@, p.1@)) =~= spec_targets(
        line_views,
        LISTING_HEADER_LINES as int,
    ));
    targets
}

/// Whether a picked profile, folded to lowercase, is among the offered
/// ones.
pub fn fingerprint_is_valid(targets: &Vec<(String, String)>, fingerprint: &str) -> (r: bool)
    ensures
        r == (exists|i: int|
            0 <= i < targets@.len() && targets@[i].0@ == lower_seq(fingerprint@)),
{
    let fp_chars = str_to_chars(fingerprint);
    let wanted = lower_chars(&fp_chars);
    let n = targets.len();
    let mut i: usize = 0;
    while i < n
        invariant
            i <= n,
            n == targets@.len(),
            wanted@ == lower_seq(fingerprint@),
            forall|k: int| 0 <= k < i ==> targets@[k].0@ != lower_seq(fingerprint@),
        decreases n - i,
    {
        let cand = str_to_chars(targets[i].0.as_str());
        if chars_eq(&cand, &wanted) {
            assert(targets@[i as int].0@ == lower_seq(fingerprint@));
            return true;
        }
        i = i + 1;
    }
    false
}

/// Whether two character vectors are equal.
fn chars_eq(a: &Vec<char>, b: &Vec<char>) -> (r: bool)
    ensures
        r == (a@ == b@),
{
    let na = a.len();
    if na != b.len() {
        return false;
    }
    let mut i: usize = 0;
    while i < na
        invariant
            i <= na,
            na == a@.len(),
            na == b@.len(),
            forall|k: int| 0 <= k < i ==> a@[k] == b@[k],
        decreases na - i,
    {
        if a[i] != b[i] {
            return false;
        }
        i = i + 1;
    }
    assert(a@ =~= b@);
    true
}

} // verus!
