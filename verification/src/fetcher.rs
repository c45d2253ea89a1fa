//! Extraction adapter: everything the pipeline decides around the external
//! extraction tool.  The tool itself runs as a subprocess outside this
//! library; here live the argument construction, the grammar of its progress
//! lines, the search for the file it produced, and the translation of its
//! exit into a success or a classified failure.

use vstd::prelude::*;
use vstd::math::min;
use crate::scan::{
    digits_run, digits_run_exec, digits_value, digit_val, is_digit, is_digit_exec,
    lemma_digits_run_bound, parse_digits_sat, chars_end_with_ci, chars_trim, spec_trim,
    ends_with_ci, eqi, sat_mul_u64, spec_elapsed, ws_run, ws_run_exec,
};
use crate::text::{
    chars_slice, chars_start_with, chars_to_string, chars_match_at, match_at, seq_starts_with,
    str_eq, str_to_chars,
};
use vstd::string::StringExecFns;

verus! {

/// Handle on the external extraction tool: where the tool lives, where it
/// writes, and where the media toolbox it needs is found.
#[derive(Clone)]
pub struct YoutubeFetcher {
    pub yt_dlp_path: String,
    pub output_dir: String,
    pub ffmpeg_dir: String,
}

/// A terminal failure of one extraction run.
#[derive(Clone, Debug)]
pub enum DownloadError {
    /// The tool exited successfully but the produced file was nowhere to be
    /// found.
    FileNotFound,
    /// The tool exited with a failure; the field carries its diagnostic
    /// text, trimmed.
    ToolFailed { diagnostic: String },
}

impl YoutubeFetcher {
    /// Builds a fetcher from the three locations it works with.
    pub fn new(yt_dlp_path: String, output_dir: String, ffmpeg_dir: String) -> (r: Result<
        YoutubeFetcher,
        DownloadError,
    >)
        ensures
            r matches Ok(f) && f.yt_dlp_path@ == yt_dlp_path@ && f.output_dir@ == output_dir@
                && f.ffmpeg_dir@ == ffmpeg_dir@,
    {
        Ok(YoutubeFetcher { yt_dlp_path, output_dir, ffmpeg_dir })
    }
}

// ---------------------------------------------------------------------------
// Size strings: "10.0MB", "10.00MiB", "1.0GB", "123B" and the like.
// ---------------------------------------------------------------------------

/// `s` is a plain decimal number: digits, or digits with a dot, with at
/// least one digit overall.
pub open spec fn spec_number(s: Seq<char>) -> bool {
    let k = digits_run(s, 0);
    if k == s.len() {
        k >= 1
    } else if s[k] == '.' {
        let m = digits_run(s, k + 1);
        k + 1 + m == s.len() && (k >= 1 || m >= 1)
    } else {
        false
    }
}

/// The integer part of a decimal number string.
pub open spec fn spec_number_int_part(s: Seq<char>) -> int {
    digits_value(s.subrange(0, digits_run(s, 0)))
}

/// Number value used for sizes: the integer part of the number, or 1 when
/// the text is not a number.
pub open spec fn spec_num_or_one(s: Seq<char>) -> int {
    if spec_number(s) {
        spec_number_int_part(s)
    } else {
        1
    }
}

/// One trailing `b`/`B` removed, if present.
pub open spec fn strip_one_b(t: Seq<char>) -> Seq<char> {
    if t.len() > 0 && eqi(t[t.len() - 1], 'b') {
        t.subrange(0, t.len() - 1)
    } else {
        t
    }
}

/// Mathematical value in bytes of a size string: the number before the unit
/// times the unit's multiplier, where `MiB`/`GiB` are binary and `MB`/`GB`
/// decimal units, all matched regardless of case.
pub open spec fn spec_size_value(raw: Seq<char>) -> int {
    let t = spec_trim(raw);
    if ends_with_ci(t, "mib"@) {
        spec_num_or_one(t.subrange(0, t.len() - 3)) * 0x100000
    } else if ends_with_ci(t, "mb"@) {
        spec_num_or_one(t.subrange(0, t.len() - 2)) * 1000000
    } else if ends_with_ci(t, "gib"@) {
        spec_num_or_one(t.subrange(0, t.len() - 3)) * 0x40000000
    } else if ends_with_ci(t, "gb"@) {
        spec_num_or_one(t.subrange(0, t.len() - 2)) * 1000000000
    } else {
        spec_num_or_one(strip_one_b(t))
    }
}

/// Parses a whole character vector as a decimal number's integer part,
/// saturating; yields 1 when the text is not a number.
fn num_or_one_sat(v: &Vec<char>) -> (r: u64)
    ensures
        r as int == min(spec_num_or_one(v@), u64::MAX as int),
        spec_num_or_one(v@) >= 0,
{
    let n = v.len();
    let k = digits_run_exec(v, 0);
    proof {
        lemma_digits_run_bound(v@, 0);
        crate::scan::lemma_digits_value_nonneg(v@.subrange(0, digits_run(v@, 0)));
    }
    if k == n {
        if k >= 1 {
            let r = parse_digits_sat(v, 0, k);
            return r;
        }
        return 1;
    }
    if v[k] == '.' {
        let m = digits_run_exec(v, k + 1);
        if k + 1 + m == n && (k >= 1 || m >= 1) {
            let r = parse_digits_sat(v, 0, k);
            return r;
        }
        return 1;
    }
    1
}

/// Parses a size string over its characters; saturates at the largest
/// 64-bit value.
pub fn parse_size_chars(v: &Vec<char>) -> (r: u64)
    ensures
        r as int == min(spec_size_value(v@), u64::MAX as int),
{
    let t = chars_trim(v);
    let mib = str_to_chars("mib");
    let mb = str_to_chars("mb");
    let gib = str_to_chars("gib");
    let gb = str_to_chars("gb");
    proof {
        reveal_strlit("mib");
        reveal_strlit("mb");
        reveal_strlit("gib");
        reveal_strlit("gb");
    }
    if chars_end_with_ci(&t, &mib) {
        let num = chars_slice(&t, 0, t.len() - 3);
        let a = num_or_one_sat(&num);
        let r = sat_mul_u64(a, 0x100000);
        proof {
            lemma_sat_num_times(spec_num_or_one(num@), a as int, 0x100000);
        }
        return r;
    }
    if chars_end_with_ci(&t, &mb) {
        let num = chars_slice(&t, 0, t.len() - 2);
        let a = num_or_one_sat(&num);
        let r = sat_mul_u64(a, 1000000);
        proof {
            lemma_sat_num_times(spec_num_or_one(num@), a as int, 1000000);
        }
        return r;
    }
    if chars_end_with_ci(&t, &gib) {
        let num = chars_slice(&t, 0, t.len() - 3);
        let a = num_or_one_sat(&num);
        let r = sat_mul_u64(a, 0x40000000);
        proof {
            lemma_sat_num_times(spec_num_or_one(num@), a as int, 0x40000000);
        }
        return r;
    }
    if chars_end_with_ci(&t, &gb) {
        let num = chars_slice(&t, 0, t.len() - 2);
        let a = num_or_one_sat(&num);
        let r = sat_mul_u64(a, 1000000000);
        proof {
            lemma_sat_num_times(spec_num_or_one(num@), a as int, 1000000000);
        }
        return r;
    }
    if t.len() > 0 && eqi_b_exec(t[t.len() - 1]) {
        let stripped = chars_slice(&t, 0, t.len() - 1);
        let a = num_or_one_sat(&stripped);
        return a;
    }
    num_or_one_sat(&t)
}

/// Decides `eqi(c, 'b')`.
fn eqi_b_exec(c: char) -> (r: bool)
    ensures
        r == eqi(c, 'b'),
{
    c == 'b' || c == 'B'
}

/// Saturation commutes with the positive unit multiplier: multiplying the
/// saturated number by the unit saturates the true product.
proof fn lemma_sat_num_times(v: int, a: int, m: int)
    requires
        v >= 0,
        a == min(v, u64::MAX as int),
        m >= 1,
    ensures
        min(a * m, u64::MAX as int) == min(v * m, u64::MAX as int),
{
    if v <= u64::MAX as int {
        assert(a == v);
    } else {
        assert(a == u64::MAX as int);
        assert(v * m >= v * 1) by (nonlinear_arith)
            requires
                v >= 0,
                m >= 1,
        ;
        assert(a * m >= a * 1) by (nonlinear_arith)
            requires
                a >= 0,
                m >= 1,
        ;
    }
}

/// Parses a size string such as `10.0MB` into bytes; text that carries no
/// number counts as one unit.
pub fn parse_size_string(s: &str) -> (r: u64)
    ensures
        r as int == min(spec_size_value(s@), u64::MAX as int),
{
    let v = str_to_chars(s);
    parse_size_chars(&v)
}

// ---------------------------------------------------------------------------
// Terminal colour codes: the tool writes its progress through ANSI escapes,
// which are removed before a line is read.
// ---------------------------------------------------------------------------

/// Parameter byte of an ANSI control sequence.
pub open spec fn ansi_param(c: char) -> bool {
    0x30 <= c as u32 <= 0x3f
}

/// Intermediate byte of an ANSI control sequence.
pub open spec fn ansi_inter(c: char) -> bool {
    0x20 <= c as u32 <= 0x2f
}

/// Final byte of an ANSI control sequence.
pub open spec fn ansi_final(c: char) -> bool {
    0x40 <= c as u32 <= 0x7e
}

/// Length of the run of parameter bytes beginning at `i`.
pub open spec fn ansi_param_run(s: Seq<char>, i: int) -> int
    decreases s.len() - i,
{
    if 0 <= i < s.len() && ansi_param(s[i]) {
        1 + ansi_param_run(s, i + 1)
    } else {
        0
    }
}

/// Length of the run of intermediate bytes beginning at `i`.
pub open spec fn ansi_inter_run(s: Seq<char>, i: int) -> int
    decreases s.len() - i,
{
    if 0 <= i < s.len() && ansi_inter(s[i]) {
        1 + ansi_inter_run(s, i + 1)
    } else {
        0
    }
}

/// Length of the ANSI control sequence beginning at `i`, or 0 when none
/// begins there.
pub open spec fn ansi_len_at(s: Seq<char>, i: int) -> int {
    if 0 <= i && i + 1 < s.len() && s[i] == '\u{1b}' && s[i + 1] == '[' {
        let j = i + 2 + ansi_param_run(s, i + 2);
        let k = j + ansi_inter_run(s, j);
        if k < s.len() && ansi_final(s[k]) {
            k + 1 - i
        } else {
            0
        }
    } else {
        0
    }
}

/// `s` with every ANSI control sequence removed, scanning left to right.
pub open spec fn strip_ansi(s: Seq<char>) -> Seq<char>
    decreases s.len(),
{
    if s.len() == 0 {
        s
    } else {
        let k = ansi_len_at(s, 0);
        if 1 <= k <= s.len() {
            strip_ansi(s.subrange(k, s.len() as int))
        } else {
            seq![s[0]] + strip_ansi(s.subrange(1, s.len() as int))
        }
    }
}

/// Decides whether `c` is an ANSI parameter byte.
fn is_ansi_param_exec(c: char) -> (r: bool)
    ensures
        r == ansi_param(c),
{
    let u = c as u32;
    0x30 <= u && u <= 0x3f
}

/// Decides whether `c` is an ANSI intermediate byte.
fn is_ansi_inter_exec(c: char) -> (r: bool)
    ensures
        r == ansi_inter(c),
{
    let u = c as u32;
    0x20 <= u && u <= 0x2f
}

/// Measures the run of parameter bytes beginning at `start`.
fn ansi_param_run_exec(v: &Vec<char>, start: usize) -> (n: usize)
    requires
        start <= v@.len(),
    ensures
        n == ansi_param_run(v@, start as int),
        start + n <= v@.len(),
{
    let len = v.len();
    let mut i: usize = start;
    while i < len && is_ansi_param_exec(v[i])
        invariant
            start <= i <= len,
            len == v@.len(),
            ansi_param_run(v@, start as int) == i - start + ansi_param_run(v@, i as int),
        decreases len - i,
    {
        i = i + 1;
    }
    i - start
}

/// Measures the run of intermediate bytes beginning at `start`.
fn ansi_inter_run_exec(v: &Vec<char>, start: usize) -> (n: usize)
    requires
        start <= v@.len(),
    ensures
        n == ansi_inter_run(v@, start as int),
        start + n <= v@.len(),
{
    let len = v.len();
    let mut i: usize = start;
    while i < len && is_ansi_inter_exec(v[i])
        invariant
            start <= i <= len,
            len == v@.len(),
            ansi_inter_run(v@, start as int) == i - start + ansi_inter_run(v@, i as int),
        decreases len - i,
    {
        i = i + 1;
    }
    i - start
}

/// Measures the ANSI control sequence beginning at `i`, 0 when none does.
fn ansi_len_exec(v: &Vec<char>, i: usize) -> (k: usize)
    requires
        i <= v@.len(),
    ensures
        k == ansi_len_at(v@, i as int),
        i + k <= v@.len(),
{
    if i >= v.len() {
        return 0;
    }
    if i + 1 >= v.len() {
        return 0;
    }
    if v[i] != '\u{1b}' || v[i + 1] != '[' {
        return 0;
    }
    let a = ansi_param_run_exec(v, i + 2);
    let j = i + 2 + a;
    let b = ansi_inter_run_exec(v, j);
    let k = j + b;
    if k < v.len() {
        let u = v[k] as u32;
        if 0x40 <= u && u <= 0x7e {
            return k + 1 - i;
        }
    }
    0
}

/// Removes every ANSI control sequence from the characters of a line.
pub fn remove_ansi_chars(v: &Vec<char>) -> (r: Vec<char>)
    ensures
        r@ == strip_ansi(v@),
{
    let len = v.len();
    let mut out: Vec<char> = Vec::new();
    assert(v@.subrange(0, len as int) =~= v@);
    assert(Seq::<char>::empty() + strip_ansi(v@) =~= strip_ansi(v@));
    let mut i: usize = 0;
    while i < len
        invariant
            i <= len,
            len == v@.len(),
            strip_ansi(v@) == out@ + strip_ansi(v@.subrange(i as int, len as int)),
        decreases len - i,
    {
        let ghost rest = v@.subrange(i as int, len as int);
        let suffix = chars_slice(v, i, len);
        let k = ansi_len_exec(&suffix, 0);
        if k > 0 {
            assert(rest.subrange(k as int, rest.len() as int) =~= v@.subrange(
                i + k,
                len as int,
            ));
            i = i + k;
        } else {
            out.push(v[i]);
            assert(rest.subrange(1, rest.len() as int) =~= v@.subrange(i + 1, len as int));
            assert(out@ + strip_ansi(v@.subrange(i + 1, len as int)) =~= strip_ansi(v@));
            i = i + 1;
        }
    }
    assert(strip_ansi(v@.subrange(len as int, len as int)) =~= Seq::<char>::empty());
    assert(out@ =~= strip_ansi(v@));
    out
}

/// Removes ANSI colour and cursor codes from a line of tool output.
pub fn remove_ansi_codes(text: &str) -> (r: String)
    ensures
        r@ == strip_ansi(text@),
{
    let v = str_to_chars(text);
    let cleaned = remove_ansi_chars(&v);
    chars_to_string(&cleaned)
}

// ---------------------------------------------------------------------------
// Progress lines.  The tool reports `[download]  50.0% of 10.00MiB`; a line
// may also carry a bare percentage.  A number is one or more digits with an
// optional dot and further digits.
// ---------------------------------------------------------------------------

/// End position of the number beginning at `i`, or -1 when no digit stands
/// at `i`.
pub open spec fn num_end(s: Seq<char>, i: int) -> int {
    let k = digits_run(s, i);
    if k == 0 {
        -1
    } else {
        let j = i + k;
        if j < s.len() && s[j] == '.' {
            j + 1 + digits_run(s, j + 1)
        } else {
            j
        }
    }
}

/// Percentage of the number beginning at `i`, in tenths of a percent: the
/// integer part times ten plus the first digit of the fraction.
pub open spec fn num_tenths(s: Seq<char>, i: int) -> int {
    let k = digits_run(s, i);
    let ip = digits_value(s.subrange(i, i + k));
    let j = i + k;
    if j < s.len() && s[j] == '.' && digits_run(s, j + 1) >= 1 {
        ip * 10 + digit_val(s[j + 1])
    } else {
        ip * 10
    }
}

/// `c` is one of the size-unit prefix letters.
pub open spec fn is_kmgt(c: char) -> bool {
    c == 'K' || c == 'M' || c == 'G' || c == 'T'
}

/// End position of the size token (number, optional unit prefix, optional
/// `i`, then `B`) beginning at `i`, or -1 when none begins there.
pub open spec fn size_end(s: Seq<char>, i: int) -> int {
    let e = num_end(s, i);
    if e < 0 {
        -1
    } else {
        let e1 = if e < s.len() && is_kmgt(s[e]) {
            e + 1
        } else {
            e
        };
        let e2 = if e1 < s.len() && s[e1] == 'i' {
            e1 + 1
        } else {
            e1
        };
        if e2 < s.len() && s[e2] == 'B' {
            e2 + 1
        } else {
            -1
        }
    }
}

/// Start of the percentage number in a full progress line beginning at `i`.
pub open spec fn p1_pct_start(s: Seq<char>, i: int) -> int {
    i + 10 + ws_run(s, i + 10)
}

/// Start of the size token in a full progress line beginning at `i`.
pub open spec fn p1_size_start(s: Seq<char>, i: int, tilde: bool) -> int {
    let pe = num_end(s, p1_pct_start(s, i));
    let o = pe + 1 + ws_run(s, pe + 1);
    o + 2 + ws_run(s, o + 2) + if tilde {
        1int
    } else {
        0int
    }
}

/// A full progress line begins at `i`: the `[download]` tag, a percentage,
/// `of`, and a size token, the size preceded by `~` when `tilde` holds.
#[verifier::opaque]
pub open spec fn p_full_at(s: Seq<char>, i: int, tilde: bool) -> bool {
    let a = i + 10;
    let w1 = ws_run(s, a);
    let p0 = a + w1;
    let pe = num_end(s, p0);
    let b = pe + 1;
    let w2 = ws_run(s, b);
    let o = b + w2;
    let w3 = ws_run(s, o + 2);
    let r0 = o + 2 + w3 + if tilde {
        1int
    } else {
        0int
    };
    &&& match_at(s, "[download]"@, i)
    &&& w1 >= 1
    &&& pe >= 0
    &&& pe < s.len() && s[pe] == '%'
    &&& w2 >= 1
    &&& o + 2 <= s.len() && s[o] == 'o' && s[o + 1] == 'f'
    &&& w3 >= 1
    &&& (tilde ==> o + 2 + w3 < s.len() && s[o + 2 + w3] == '~')
    &&& size_end(s, r0) >= 0
}

/// A bare percentage begins at `i`: a number followed by `%`.
pub open spec fn p3_at(s: Seq<char>, i: int) -> bool {
    let e = num_end(s, i);
    e >= 0 && e < s.len() && s[e] == '%'
}

/// Total size assumed when a line carries a percentage but no size.
pub const DEFAULT_TOTAL_SIZE: u64 = 10485760;

/// Position of the first full progress line at or after `i`, or -1 when
/// none follows.
pub open spec fn first_full_from(s: Seq<char>, i: int, tilde: bool) -> int
    decreases s.len() - i,
{
    if !(0 <= i <= s.len()) {
        -1
    } else if i == s.len() {
        -1
    } else if p_full_at(s, i, tilde) {
        i
    } else {
        first_full_from(s, i + 1, tilde)
    }
}

/// Position of the first bare percentage at or after `i`, or -1 when none
/// follows.
pub open spec fn first_p3_from(s: Seq<char>, i: int) -> int
    decreases s.len() - i,
{
    if !(0 <= i <= s.len()) {
        -1
    } else if i == s.len() {
        -1
    } else if p3_at(s, i) {
        i
    } else {
        first_p3_from(s, i + 1)
    }
}

/// The percentage value, in tenths, of the full progress line at `i`.
pub open spec fn p1_tenths(s: Seq<char>, i: int) -> int {
    min(num_tenths(s, p1_pct_start(s, i)), u64::MAX as int)
}

/// The total size, in bytes, of the full progress line at `i`.
pub open spec fn p1_bytes(s: Seq<char>, i: int, tilde: bool) -> int {
    min(
        spec_size_value(
            s.subrange(p1_size_start(s, i, tilde), size_end(s, p1_size_start(s, i, tilde))),
        ),
        u64::MAX as int,
    )
}

/// The percentage (in tenths) and total size (in bytes) that a cleaned line
/// of tool output reports: taken from the first full progress line, from the
/// first full progress line with `~` before the size, or from the first bare
/// percentage, in that order; `None` when the line reports no progress.
pub open spec fn spec_parse_line(s: Seq<char>) -> Option<(int, int)> {
    let i1 = first_full_from(s, 0, false);
    let i2 = first_full_from(s, 0, true);
    let i3 = first_p3_from(s, 0);
    if i1 >= 0 {
        Some((p1_tenths(s, i1), p1_bytes(s, i1, false)))
    } else if i2 >= 0 {
        Some((p1_tenths(s, i2), p1_bytes(s, i2, true)))
    } else if i3 >= 0 {
        Some((min(num_tenths(s, i3), u64::MAX as int), DEFAULT_TOTAL_SIZE as int))
    } else {
        None
    }
}

/// Finds the end of the number beginning at `i`, if a digit stands there.
fn num_end_exec(v: &Vec<char>, i: usize) -> (r: Option<usize>)
    requires
        i <= v@.len(),
    ensures
        match r {
            Some(e) => num_end(v@, i as int) == e && i < e <= v@.len(),
            None => num_end(v@, i as int) == -1,
        },
{
    let n = v.len();
    let k = digits_run_exec(v, i);
    if k == 0 {
        return None;
    }
    let j = i + k;
    if j < n && v[j] == '.' {
        let m = digits_run_exec(v, j + 1);
        Some(j + 1 + m)
    } else {
        Some(j)
    }
}

/// Saturation carries through scaling a number by ten and adding a digit.
proof fn lemma_sat_scale(vtrue: int, a: int, d: int)
    requires
        0 <= d <= 9,
        vtrue >= 0,
        a == min(vtrue, u64::MAX as int),
    ensures
        a > (u64::MAX as int - d) / 10 ==> vtrue * 10 + d > u64::MAX as int,
        a <= (u64::MAX as int - d) / 10 ==> vtrue * 10 + d <= u64::MAX as int && a == vtrue,
{
    let q = (u64::MAX as int - d) / 10;
    assert(u64::MAX as int - d == 10 * q + (u64::MAX as int - d) % 10);
    if a > q {
        if vtrue <= u64::MAX as int {
            assert(vtrue * 10 + d > u64::MAX as int);
        } else {
            assert(vtrue * 10 >= vtrue);
        }
    } else {
        assert(q < u64::MAX as int);
        assert(a == vtrue);
    }
}

/// Reads the percentage beginning at `i` in tenths of a percent,
/// saturating.
fn num_tenths_exec(v: &Vec<char>, i: usize) -> (r: u64)
    requires
        i <= v@.len(),
    ensures
        r as int == min(num_tenths(v@, i as int), u64::MAX as int),
{
    let n = v.len();
    let k = digits_run_exec(v, i);
    proof {
        lemma_digits_run_bound(v@, i as int);
        crate::scan::lemma_digits_value_nonneg(v@.subrange(i as int, i + digits_run(v@, i as int)));
    }
    let ip = parse_digits_sat(v, i, i + k);
    let j = i + k;
    let mut frac: u64 = 0;
    if j < n && v[j] == '.' {
        if j + 1 < n && is_digit_exec(v[j + 1]) {
            proof {
                lemma_digits_run_bound(v@, j + 2);
                assert(digits_run(v@, j + 1) == 1 + digits_run(v@, j + 2));
            }
            frac = (v[j + 1] as u32 - 48) as u64;
        } else {
            assert(digits_run(v@, j + 1) == 0);
        }
    }
    proof {
        lemma_sat_scale(
            digits_value(v@.subrange(i as int, i + digits_run(v@, i as int))),
            ip as int,
            frac as int,
        );
    }
    if ip > (u64::MAX - frac) / 10 {
        u64::MAX
    } else {
        ip * 10 + frac
    }
}

/// Decides whether `c` is a size-unit prefix letter.
fn is_kmgt_exec(c: char) -> (r: bool)
    ensures
        r == is_kmgt(c),
{
    c == 'K' || c == 'M' || c == 'G' || c == 'T'
}

/// Finds the end of the size token beginning at `i`, if one begins there.
fn size_end_exec(v: &Vec<char>, i: usize) -> (r: Option<usize>)
    requires
        i <= v@.len(),
    ensures
        match r {
            Some(e) => size_end(v@, i as int) == e && i < e <= v@.len(),
            None => size_end(v@, i as int) == -1,
        },
{
    let e = match num_end_exec(v, i) {
        None => {
            return None;
        },
        Some(e) => e,
    };
    let mut e1 = e;
    if e1 < v.len() && is_kmgt_exec(v[e1]) {
        e1 = e1 + 1;
    }
    if e1 < v.len() && v[e1] == 'i' {
        e1 = e1 + 1;
    }
    if e1 < v.len() && v[e1] == 'B' {
        Some(e1 + 1)
    } else {
        None
    }
}

/// Decides whether a full progress line begins at `i`.
fn p_full_check(c: &Vec<char>, i: usize, tilde: bool) -> (r: bool)
    requires
        i <= c@.len(),
    ensures
        r == p_full_at(c@, i as int, tilde),
{
    let dl = str_to_chars("[download]");
    proof {
        reveal(p_full_at);
        reveal_strlit("[download]");
    }
    if c.len() - i < dl.len() {
        return false;
    }
    if !chars_match_at(c, &dl, i) {
        return false;
    }
    let a = i + 10;
    let w1 = ws_run_exec(c, a);
    if w1 == 0 {
        return false;
    }
    let p0 = a + w1;
    let pe = match num_end_exec(c, p0) {
        None => {
            return false;
        },
        Some(e) => e,
    };
    if pe >= c.len() {
        return false;
    }
    if c[pe] != '%' {
        return false;
    }
    let b = pe + 1;
    let w2 = ws_run_exec(c, b);
    if w2 == 0 {
        return false;
    }
    let o = b + w2;
    if c.len() - o < 2 {
        return false;
    }
    if c[o] != 'o' || c[o + 1] != 'f' {
        return false;
    }
    let w3 = ws_run_exec(c, o + 2);
    if w3 == 0 {
        return false;
    }
    let mut r0 = o + 2 + w3;
    if tilde {
        if r0 >= c.len() {
            return false;
        }
        if c[r0] != '~' {
            return false;
        }
        r0 = r0 + 1;
    }
    size_end_exec(c, r0).is_some()
}

/// Reads the percentage and total size out of a full progress line known to
/// begin at `i`.
fn p_full_values(c: &Vec<char>, i: usize, tilde: bool) -> (r: (u64, u64))
    requires
        i <= c@.len(),
        p_full_at(c@, i as int, tilde),
    ensures
        r.0 as int == min(num_tenths(c@, p1_pct_start(c@, i as int)), u64::MAX as int),
        r.1 as int == min(
            spec_size_value(
                c@.subrange(
                    p1_size_start(c@, i as int, tilde),
                    size_end(c@, p1_size_start(c@, i as int, tilde)),
                ),
            ),
            u64::MAX as int,
        ),
{
    let n = c.len();
    proof {
        reveal(p_full_at);
        reveal_strlit("[download]");
        assert(i + 10 <= n);
    }
    let a = i + 10;
    let w1 = ws_run_exec(c, a);
    let p0 = a + w1;
    let t = num_tenths_exec(c, p0);
    let pe = num_end_exec(c, p0).unwrap();
    let b = pe + 1;
    let w2 = ws_run_exec(c, b);
    let o = b + w2;
    let w3 = ws_run_exec(c, o + 2);
    let mut r0 = o + 2 + w3;
    if tilde {
        r0 = r0 + 1;
    }
    let se = size_end_exec(c, r0).unwrap();
    let cap = chars_slice(c, r0, se);
    let bytes = parse_size_chars(&cap);
    (t, bytes)
}

/// Reads a percentage (in tenths) and a total size (in bytes) out of one
/// line of tool output, ANSI codes removed first; a bare percentage without
/// a size is reported against an assumed default size.
pub fn parse_progress_line(line: &str) -> (r: Option<(u64, u64)>)
    ensures
        ({
            let c = strip_ansi(line@);
            match r {
                Some(pr) => spec_parse_line(c) == Some((pr.0 as int, pr.1 as int)),
                None => spec_parse_line(c) is None,
            }
        }),
{
    let raw = str_to_chars(line);
    let c = remove_ansi_chars(&raw);
    let n = c.len();
    let mut i: usize = 0;
    while i < n
        invariant
            i <= n,
            n == c@.len(),
            c@ == strip_ansi(line@),
            first_full_from(c@, 0, false) == first_full_from(c@, i as int, false),
        decreases n - i,
    {
        if p_full_check(&c, i, false) {
            let pr = p_full_values(&c, i, false);
            assert(first_full_from(c@, 0, false) == i);
            return Some(pr);
        }
        i = i + 1;
    }
    assert(first_full_from(c@, 0, false) == -1);
    let mut i: usize = 0;
    while i < n
        invariant
            i <= n,
            n == c@.len(),
            c@ == strip_ansi(line@),
            first_full_from(c@, 0, false) == -1,
            first_full_from(c@, 0, true) == first_full_from(c@, i as int, true),
        decreases n - i,
    {
        if p_full_check(&c, i, true) {
            let pr = p_full_values(&c, i, true);
            assert(first_full_from(c@, 0, true) == i);
            return Some(pr);
        }
        i = i + 1;
    }
    assert(first_full_from(c@, 0, true) == -1);
    let mut i: usize = 0;
    while i < n
        invariant
            i <= n,
            n == c@.len(),
            c@ == strip_ansi(line@),
            first_full_from(c@, 0, false) == -1,
            first_full_from(c@, 0, true) == -1,
            first_p3_from(c@, 0) == first_p3_from(c@, i as int),
        decreases n - i,
    {
        let hit = match num_end_exec(&c, i) {
            Some(e) => e < c.len() && c[e] == '%',
            None => false,
        };
        if hit {
            let t = num_tenths_exec(&c, i);
            assert(first_p3_from(c@, 0) == i);
            return Some((t, DEFAULT_TOTAL_SIZE));
        }
        i = i + 1;
    }
    assert(first_p3_from(c@, 0) == -1);
    None
}

// ---------------------------------------------------------------------------
// Invocation of the tool.
// ---------------------------------------------------------------------------

/// The views of a sequence of strings.
pub open spec fn views_of(v: Seq<String>) -> Seq<Seq<char>> {
    v.map_values(|s: String| s@)
}

/// Format-selection arguments derived from the quality preference: `h264`
/// asks for broadly compatible video, `audio` for audio-only extraction,
/// and anything else for the best available video.
pub open spec fn spec_quality_args(q: Seq<char>) -> Seq<Seq<char>> {
    if q == "h264"@ {
        seq!["-f"@, "bestvideo[vcodec^=avc]+bestaudio/best[vcodec^=avc]/best"@]
    } else if q == "audio"@ {
        seq!["-x"@, "--audio-format"@, "best"@]
    } else {
        seq!["-f"@, "bestvideo+bestaudio/best"@]
    }
}

/// The output path template the tool is told to write to: inside the output
/// directory, the stem with `.mp4`, or with the tool's extension placeholder
/// for audio-only extraction.
pub open spec fn spec_output_template(dir: Seq<char>, stem: Seq<char>, q: Seq<char>) -> Seq<char> {
    if q == "audio"@ {
        dir + "/"@ + stem + ".%(ext)s"@
    } else {
        dir + "/"@ + stem + ".mp4"@
    }
}

/// The full argument list of one tool invocation: fixed flags and the
/// output template, then the impersonation profile when one is configured,
/// then the format selection, then the link.
pub open spec fn spec_download_args(
    dir: Seq<char>,
    ffmpeg_dir: Seq<char>,
    url: Seq<char>,
    stem: Seq<char>,
    q: Seq<char>,
    fp: Option<Seq<char>>,
) -> Seq<Seq<char>> {
    seq![
        "--extractor-args"@,
        "tiktok:skip=feed"@,
        "--output"@,
        spec_output_template(dir, stem, q),
        "--no-part"@,
        "--no-mtime"@,
        "--ffmpeg-location"@,
        ffmpeg_dir,
        "--progress"@,
        "--newline"@,
    ] + (match fp {
        Some(f) => seq!["--impersonate="@ + f],
        None => Seq::empty(),
    }) + spec_quality_args(q) + seq![url]
}

/// Relies on `uuid::Uuid::new_v4` and its `Display` form: a fresh random
/// identifier spelled as 36 lowercase hexadecimal characters and hyphens.
/// The identifier is random — nothing beyond its length holds of it — and
/// drawing it needs the operating system's randomness source.
#[verifier::external_body]
fn fresh_identifier() -> (r: String)
    ensures
        r@.len() == 36,
{
    uuid::Uuid::new_v4().to_string()
}

/// A fresh stem for one download attempt's output: the output prefix, then
/// a fresh identifier.
fn new_task_stem() -> (r: String)
    ensures
        r@.len() == 43,
        r@.subrange(0, 7) == "output/"@,
{
    proof {
        reveal_strlit("output/");
    }
    let mut stem = "output/".to_owned();
    let id = fresh_identifier();
    stem.append(id.as_str());
    assert(stem@.subrange(0, 7) =~= "output/"@);
    stem
}

impl YoutubeFetcher {
    /// Starts one download attempt: draws a fresh output stem — every
    /// attempt writes under its own name — and derives the tool's
    /// arguments for it.
    pub fn prepare_attempt(&self, url: &String, quality: &str, fingerprint: &Option<String>) -> (r:
        (String, Vec<String>))
        ensures
            r.0@.len() == 43,
            r.0@.subrange(0, 7) == "output/"@,
            views_of(r.1@) == spec_download_args(
                self.output_dir@,
                self.ffmpeg_dir@,
                url@,
                r.0@,
                quality@,
                match fingerprint {
                    Some(f) => Some(f@),
                    None => None,
                },
            ),
    {
        let stem = new_task_stem();
        let args = self.build_download_args(url, stem.as_str(), quality, fingerprint);
        (stem, args)
    }

    /// Builds the argument list for one invocation of the tool.
    pub fn build_download_args(
        &self,
        url: &String,
        filename_stem: &str,
        quality: &str,
        fingerprint: &Option<String>,
    ) -> (args: Vec<String>)
        ensures
            views_of(args@) == spec_download_args(
                self.output_dir@,
                self.ffmpeg_dir@,
                url@,
                filename_stem@,
                quality@,
                match fingerprint {
                    Some(f) => Some(f@),
                    None => None,
                },
            ),
    {
        let mut args: Vec<String> = Vec::new();
        args.push("--extractor-args".to_owned());
        args.push("tiktok:skip=feed".to_owned());
        args.push("--output".to_owned());
        let mut tmpl = self.output_dir.clone();
        tmpl.append("/");
        tmpl.append(filename_stem);
        if str_eq(quality, "audio") {
            tmpl.append(".%(ext)s");
        } else {
            tmpl.append(".mp4");
        }
        args.push(tmpl);
        args.push("--no-part".to_owned());
        args.push("--no-mtime".to_owned());
        args.push("--ffmpeg-location".to_owned());
        args.push(self.ffmpeg_dir.clone());
        args.push("--progress".to_owned());
        args.push("--newline".to_owned());
        match fingerprint {
            Some(f) => {
                let mut imp = "--impersonate=".to_owned();
                imp.append(f.as_str());
                args.push(imp);
            },
            None => {},
        }
        if str_eq(quality, "h264") {
            args.push("-f".to_owned());
            args.push("bestvideo[vcodec^=avc]+bestaudio/best[vcodec^=avc]/best".to_owned());
        } else if str_eq(quality, "audio") {
            args.push("-x".to_owned());
            args.push("--audio-format".to_owned());
            args.push("best".to_owned());
        } else {
            args.push("-f".to_owned());
            args.push("bestvideo+bestaudio/best".to_owned());
        }
        args.push(url.clone());
        proof {
            assert(views_of(args@) =~= spec_download_args(
                self.output_dir@,
                self.ffmpeg_dir@,
                url@,
                filename_stem@,
                quality@,
                match fingerprint {
                    Some(f) => Some(f@),
                    None => None,
                },
            ));
        }
        args
    }
}

// ---------------------------------------------------------------------------
// Locating the produced file.
// ---------------------------------------------------------------------------

/// Position of the first name at or after `i` that begins with `stem`, or
/// -1 when none does.
pub open spec fn first_match_from(names: Seq<Seq<char>>, stem: Seq<char>, i: int) -> int
    decreases names.len() - i,
{
    if !(0 <= i <= names.len()) {
        -1
    } else if i == names.len() {
        -1
    } else if seq_starts_with(names[i], stem) {
        i
    } else {
        first_match_from(names, stem, i + 1)
    }
}

/// Finds the produced file in a directory listing.  The search could make
/// three passes — an unexpected-name match, the known extensions, a
/// fallback scan — but against one snapshot of the directory every pass
/// resolves to the first name that begins with the stem, so one pass
/// decides.
pub fn locate_output_index(listing: &Vec<String>, stem: &str) -> (r: Option<usize>)
    ensures
        ({
            let names = views_of(listing@);
            match r {
                Some(i) => first_match_from(names, stem@, 0) == i && i < listing@.len(),
                None => first_match_from(names, stem@, 0) == -1,
            }
        }),
{
    let ghost names = views_of(listing@);
    let stem_chars = str_to_chars(stem);
    let n = listing.len();
    let mut i: usize = 0;
    while i < n
        invariant
            i <= n,
            n == listing@.len(),
            names == views_of(listing@),
            stem_chars@ == stem@,
            first_match_from(names, stem@, 0) == first_match_from(names, stem@, i as int),
        decreases n - i,
    {
        let name_chars = str_to_chars(listing[i].as_str());
        assert(name_chars@ == names[i as int]);
        if chars_start_with(&name_chars, &stem_chars) {
            assert(first_match_from(names, stem@, 0) == i);
            return Some(i);
        }
        i = i + 1;
    }
    assert(first_match_from(names, stem@, 0) == -1);
    None
}

// ---------------------------------------------------------------------------
// Live progress translation.
// ---------------------------------------------------------------------------

/// Smallest spacing between two forwarded progress updates, coalescing the
/// tool's bursty output.
pub const PROGRESS_COALESCE_MS: u64 = 500;

/// Top of the 0–80 band that the download phase occupies within the
/// overall task progress; the 80–100 band is the upload phase's.
pub const DOWNLOAD_BAND_TOP: u8 = 80;

/// A progress value is forwarded only when it increased and enough time has
/// passed since the previous forwarded update.
pub open spec fn spec_fires(last_t: int, last_ms: int, t: int, now: int) -> bool {
    t > last_t && spec_elapsed(now, last_ms) >= PROGRESS_COALESCE_MS as int
}

/// A download percentage (in tenths) rescaled into the 0–80 band that the
/// download phase occupies within the overall task progress.
pub open spec fn spec_band(tenths: int) -> int {
    min(tenths * 8 / 100, 80)
}

/// Rescales a download percentage in tenths into the 0–80 download band.
pub fn download_band(tenths: u64) -> (r: u8)
    requires
        tenths >= 0,
    ensures
        r as int == spec_band(tenths as int),
{
    let q = tenths / 100;
    let rem = tenths % 100;
    proof {
        assert(tenths as int * 8 / 100 == q as int * 8 + rem as int * 8 / 100) by (nonlinear_arith)
            requires
                tenths as int == 100 * q as int + rem as int,
                0 <= rem < 100,
                q >= 0,
        ;
    }
    if q >= 10 {
        80
    } else {
        (q * 8 + rem * 8 / 100) as u8
    }
}

/// Coalescing state of one download's progress stream.
pub struct DownloadProgress {
    /// Last forwarded percentage, in tenths.
    pub last_tenths: u64,
    /// Instant of the last forwarded update, in milliseconds.
    pub last_emit_ms: u64,
}

impl DownloadProgress {
    /// Fresh state at the start of a download.
    pub fn new(now_ms: u64) -> (r: DownloadProgress)
        ensures
            r.last_tenths == 0,
            r.last_emit_ms == now_ms,
    {
        DownloadProgress { last_tenths: 0, last_emit_ms: now_ms }
    }

    /// Feeds one parsed percentage; yields the rescaled value to forward if
    /// it passes the coalescing rule, and otherwise changes nothing.
    pub fn on_progress(&mut self, tenths: u64, now_ms: u64) -> (r: Option<u8>)
        ensures
            spec_fires(
                old(self).last_tenths as int,
                old(self).last_emit_ms as int,
                tenths as int,
                now_ms as int,
            ) ==> r == Some(spec_band(tenths as int) as u8) && final(self).last_tenths == tenths
                && final(self).last_emit_ms == now_ms,
            !spec_fires(
                old(self).last_tenths as int,
                old(self).last_emit_ms as int,
                tenths as int,
                now_ms as int,
            ) ==> r is None && *final(self) == *old(self),
    {
        let elapsed = if now_ms >= self.last_emit_ms {
            now_ms - self.last_emit_ms
        } else {
            0
        };
        if tenths > self.last_tenths && elapsed >= PROGRESS_COALESCE_MS {
            self.last_tenths = tenths;
            self.last_emit_ms = now_ms;
            Some(download_band(tenths))
        } else {
            None
        }
    }
}

// ---------------------------------------------------------------------------
// One whole run of the tool, interpreted.
// ---------------------------------------------------------------------------

/// One line the running tool wrote, with the instant it arrived.
#[derive(Clone, Debug)]
pub struct ToolLine {
    pub text: String,
    pub at_ms: u64,
}

/// What one finished run of the tool left behind: its output lines in
/// arrival order, its exit status, its captured diagnostic stream, and the
/// files found in the output directory after it exited.
pub struct ToolRun {
    pub lines: Vec<ToolLine>,
    pub exit_success: bool,
    pub stderr_text: String,
    pub listing: Vec<String>,
}

/// The rescaled progress values that the coalescing rule forwards while the
/// given lines arrive, starting from the given state.
pub open spec fn spec_run_updates(lines: Seq<ToolLine>, last_t: int, last_ms: int) -> Seq<int>
    decreases lines.len(),
{
    if lines.len() == 0 {
        Seq::empty()
    } else {
        let first = lines[0];
        let rest = lines.drop_first();
        match spec_parse_line(strip_ansi(first.text@)) {
            Some(pr) => if spec_fires(last_t, last_ms, pr.0, first.at_ms as int) {
                seq![spec_band(pr.0)] + spec_run_updates(rest, pr.0, first.at_ms as int)
            } else {
                spec_run_updates(rest, last_t, last_ms)
            },
            None => spec_run_updates(rest, last_t, last_ms),
        }
    }
}

/// Everything one modelled download produces: the argument list the tool
/// was given, the progress values forwarded while it ran, and where its
/// file ended up — or why it did not.
pub struct DownloadRunResult {
    pub command_args: Vec<String>,
    pub updates: Vec<u8>,
    pub outcome: Result<String, DownloadError>,
}

impl YoutubeFetcher {
    /// Interprets one run of the tool on a link: derives the invocation
    /// arguments, translates the progress lines through the coalescing
    /// rule, and on exit either locates the produced file or classifies
    /// the run as failed.  A successful exit closes the download phase by
    /// forwarding the top of the download band before the file is looked
    /// for; a successful exit without a findable file still fails, with
    /// `FileNotFound`.
    pub fn download_video_from_url(
        &self,
        url: String,
        filename_stem: &str,
        quality: &str,
        fingerprint: Option<String>,
        run: &ToolRun,
        start_ms: u64,
    ) -> (r: DownloadRunResult)
        ensures
            views_of(r.command_args@) == spec_download_args(
                self.output_dir@,
                self.ffmpeg_dir@,
                url@,
                filename_stem@,
                quality@,
                match fingerprint {
                    Some(f) => Some(f@),
                    None => None,
                },
            ),
            r.updates@.map_values(|p: u8| p as int) == spec_run_updates(
                run.lines@,
                0,
                start_ms as int,
            ) + (if run.exit_success {
                seq![DOWNLOAD_BAND_TOP as int]
            } else {
                Seq::<int>::empty()
            }),
            ({
                let names = views_of(run.listing@);
                let found = first_match_from(names, filename_stem@, 0);
                if run.exit_success {
                    if found >= 0 {
                        r.outcome matches Ok(p) && p@ == self.output_dir@ + "/"@ + names[found]
                    } else {
                        r.outcome matches Err(DownloadError::FileNotFound)
                    }
                } else {
                    r.outcome matches Err(DownloadError::ToolFailed { diagnostic }) && diagnostic@
                        == spec_trim(run.stderr_text@)
                }
            }),
    {
        let command_args = self.build_download_args(&url, filename_stem, quality, &fingerprint);
        let mut st = DownloadProgress::new(start_ms);
        let mut updates: Vec<u8> = Vec::new();
        let n = run.lines.len();
        assert(run.lines@.subrange(0, n as int) =~= run.lines@);
        assert(Seq::<int>::empty() + spec_run_updates(run.lines@, 0, start_ms as int)
            =~= spec_run_updates(run.lines@, 0, start_ms as int));
        assert(updates@.map_values(|p: u8| p as int) =~= Seq::<int>::empty());
        let mut i: usize = 0;
        while i < n
            invariant
                i <= n,
                n == run.lines@.len(),
                spec_run_updates(run.lines@, 0, start_ms as int) == updates@.map_values(
                    |p: u8| p as int,
                ) + spec_run_updates(
                    run.lines@.subrange(i as int, n as int),
                    st.last_tenths as int,
                    st.last_emit_ms as int,
                ),
            decreases n - i,
        {
            let ghost rest = run.lines@.subrange(i as int, n as int);
            assert(rest[0] == run.lines@[i as int]);
            assert(rest.drop_first() =~= run.lines@.subrange(i + 1, n as int));
            let line = &run.lines[i];
            let ghost old_updates = updates@;
            match parse_progress_line(line.text.as_str()) {
                Some(pr) => {
                    match st.on_progress(pr.0, line.at_ms) {
                        Some(p) => {
                            updates.push(p);
                            assert(updates@.map_values(|p: u8| p as int) =~= old_updates
                                .map_values(|p: u8| p as int) + seq![p as int]);
                            assert((old_updates.map_values(|p: u8| p as int) + seq![p as int])
                                + spec_run_updates(
                                run.lines@.subrange(i + 1, n as int),
                                st.last_tenths as int,
                                st.last_emit_ms as int,
                            ) =~= old_updates.map_values(|p: u8| p as int) + (seq![p as int]
                                + spec_run_updates(
                                run.lines@.subrange(i + 1, n as int),
                                st.last_tenths as int,
                                st.last_emit_ms as int,
                            )));
                        },
                        None => {},
                    }
                },
                None => {},
            }
            i = i + 1;
        }
        assert(spec_run_updates(run.lines@.subrange(n as int, n as int), st.last_tenths as int,
            st.last_emit_ms as int) =~= Seq::<int>::empty());
        assert(updates@.map_values(|p: u8| p as int) =~= spec_run_updates(
            run.lines@,
            0,
            start_ms as int,
        ));
        if run.exit_success {
            let ghost parsed = updates@;
            updates.push(DOWNLOAD_BAND_TOP);
            assert(updates@.map_values(|p: u8| p as int) =~= parsed.map_values(|p: u8| p as int)
                + seq![DOWNLOAD_BAND_TOP as int]);
        }
        let outcome: Result<String, DownloadError> = if run.exit_success {
            match locate_output_index(&run.listing, filename_stem) {
                Some(ix) => {
                    let mut path = self.output_dir.clone();
                    path.append("/");
                    path.append(run.listing[ix].as_str());
                    Ok(path)
                },
                None => Err(DownloadError::FileNotFound),
            }
        } else {
            let stderr_chars = str_to_chars(run.stderr_text.as_str());
            let trimmed = chars_trim(&stderr_chars);
            Err(DownloadError::ToolFailed { diagnostic: chars_to_string(&trimmed) })
        };
        DownloadRunResult { command_args, updates, outcome }
    }
}

} // verus!
