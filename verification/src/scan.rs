//! Small lexing building blocks: digit runs, whitespace runs, saturating
//! decimal parsing, trimming and case-insensitive comparison, each verified
//! against a spec over character sequences.

use vstd::prelude::*;
use vstd::math::min;

verus! {

/// `c` is a decimal digit.
pub open spec fn is_digit(c: char) -> bool {
    48 <= c as u32 <= 57
}

/// Numeric value of a decimal digit.
pub open spec fn digit_val(c: char) -> int {
    c as u32 - 48
}

/// Value of a string of decimal digits, most significant first.
pub open spec fn digits_value(s: Seq<char>) -> int
    decreases s.len(),
{
    if s.len() == 0 {
        0
    } else {
        digits_value(s.drop_last()) * 10 + digit_val(s.last())
    }
}

/// A string of digits has a value that is not negative.
pub proof fn lemma_digits_value_nonneg(s: Seq<char>)
    requires
        forall|k: int| 0 <= k < s.len() ==> is_digit(s[k]),
    ensures
        digits_value(s) >= 0,
    decreases s.len(),
{
    if s.len() > 0 {
        lemma_digits_value_nonneg(s.drop_last());
    }
}

/// Length of the run of decimal digits beginning at `i`.
pub open spec fn digits_run(s: Seq<char>, i: int) -> int
    decreases s.len() - i,
{
    if 0 <= i < s.len() && is_digit(s[i]) {
        1 + digits_run(s, i + 1)
    } else {
        0
    }
}

/// The digit run never runs past the end of the string.
pub proof fn lemma_digits_run_bound(s: Seq<char>, i: int)
    requires
        0 <= i <= s.len(),
    ensures
        0 <= digits_run(s, i),
        i + digits_run(s, i) <= s.len(),
        forall|k: int| i <= k < i + digits_run(s, i) ==> is_digit(s[k]),
    decreases s.len() - i,
{
    if i < s.len() && is_digit(s[i]) {
        lemma_digits_run_bound(s, i + 1);
    }
}

/// `c` is digit or not, decided executably.
pub fn is_digit_exec(c: char) -> (r: bool)
    ensures
        r == is_digit(c),
{
    let u = c as u32;
    48 <= u && u <= 57
}

/// Measures the run of decimal digits beginning at `start`.
pub fn digits_run_exec(v: &Vec<char>, start: usize) -> (n: usize)
    requires
        start <= v@.len(),
    ensures
        n == digits_run(v@, start as int),
        start + n <= v@.len(),
{
    let len = v.len();
    let mut i: usize = start;
    while i < len && is_digit_exec(v[i])
        invariant
            start <= i <= len,
            len == v@.len(),
            digits_run(v@, start as int) == i - start + digits_run(v@, i as int),
        decreases len - i,
    {
        i = i + 1;
    }
    i - start
}

/// `c` counts as whitespace for the line scanners.
pub open spec fn is_ws(c: char) -> bool {
    c == ' ' || c == '\t' || c == '\n' || c == '\r'
}

/// Length of the whitespace run beginning at `i`.
pub open spec fn ws_run(s: Seq<char>, i: int) -> int
    decreases s.len() - i,
{
    if 0 <= i < s.len() && is_ws(s[i]) {
        1 + ws_run(s, i + 1)
    } else {
        0
    }
}

/// `c` is whitespace or not, decided executably.
pub fn is_ws_exec(c: char) -> (r: bool)
    ensures
        r == is_ws(c),
{
    c == ' ' || c == '\t' || c == '\n' || c == '\r'
}

/// Measures the whitespace run beginning at `start`.
pub fn ws_run_exec(v: &Vec<char>, start: usize) -> (n: usize)
    requires
        start <= v@.len(),
    ensures
        n == ws_run(v@, start as int),
        start + n <= v@.len(),
{
    let len = v.len();
    let mut i: usize = start;
    while i < len && is_ws_exec(v[i])
        invariant
            start <= i <= len,
            len == v@.len(),
            ws_run(v@, start as int) == i - start + ws_run(v@, i as int),
        decreases len - i,
    {
        i = i + 1;
    }
    i - start
}

/// Length of the run of non-whitespace characters beginning at `i`.
pub open spec fn nonws_run(s: Seq<char>, i: int) -> int
    decreases s.len() - i,
{
    if 0 <= i < s.len() && !is_ws(s[i]) {
        1 + nonws_run(s, i + 1)
    } else {
        0
    }
}

/// Measures the run of non-whitespace characters beginning at `start`.
pub fn nonws_run_exec(v: &Vec<char>, start: usize) -> (n: usize)
    requires
        start <= v@.len(),
    ensures
        n == nonws_run(v@, start as int),
        start + n <= v@.len(),
{
    let len = v.len();
    let mut i: usize = start;
    while i < len && !is_ws_exec(v[i])
        invariant
            start <= i <= len,
            len == v@.len(),
            nonws_run(v@, start as int) == i - start + nonws_run(v@, i as int),
        decreases len - i,
    {
        i = i + 1;
    }
    i - start
}

/// Parses the digits of `v` in `[from, to)` as a decimal number, saturating
/// at the largest 64-bit value.
pub fn parse_digits_sat(v: &Vec<char>, from: usize, to: usize) -> (r: u64)
    requires
        from <= to <= v@.len(),
        forall|k: int| from <= k < to ==> is_digit(v@[k]),
    ensures
        r as int == min(digits_value(v@.subrange(from as int, to as int)), u64::MAX as int),
{
    let mut acc: u64 = 0;
    let mut i: usize = from;
    while i < to
        invariant
            from <= i <= to <= v@.len(),
            forall|k: int| from <= k < to ==> is_digit(v@[k]),
            acc as int == min(
                digits_value(v@.subrange(from as int, i as int)),
                u64::MAX as int,
            ),
        decreases to - i,
    {
        let ghost pre = v@.subrange(from as int, i as int);
        let ghost pre2 = v@.subrange(from as int, i + 1);
        proof {
            assert(pre2.drop_last() =~= pre);
            lemma_digits_value_nonneg(pre);
        }
        let d: u64 = (v[i] as u32 - 48) as u64;
        if acc > (u64::MAX - d) / 10 {
            proof {
                let q = (u64::MAX as int - d) / 10;
                assert(u64::MAX as int - d == 10 * q + (u64::MAX as int - d) % 10);
                assert(acc * 10 + d > u64::MAX as int);
            }
            acc = u64::MAX;
        } else {
            proof {
                let q = (u64::MAX as int - d) / 10;
                assert(u64::MAX as int - d == 10 * q + (u64::MAX as int - d) % 10);
                assert(acc * 10 + d <= u64::MAX as int);
            }
            acc = acc * 10 + d;
        }
        i = i + 1;
    }
    assert(v@.subrange(from as int, to as int) =~= v@.subrange(from as int, i as int));
    acc
}

/// Elapsed time on a clock that never runs backwards.
pub open spec fn spec_elapsed(now: int, last: int) -> int {
    if now >= last {
        now - last
    } else {
        0
    }
}

/// The value of a digit string bounds the value of each of its prefixes.
pub proof fn lemma_digits_value_prefix(s: Seq<char>, j: int)
    requires
        forall|k: int| 0 <= k < s.len() ==> is_digit(s[k]),
        0 <= j <= s.len(),
    ensures
        digits_value(s.subrange(0, j)) <= digits_value(s),
    decreases s.len() - j,
{
    if j == s.len() {
        assert(s.subrange(0, j) =~= s);
    } else {
        lemma_digits_value_nonneg(s.subrange(0, j));
        assert(s.subrange(0, j + 1).drop_last() =~= s.subrange(0, j));
        assert(digits_value(s.subrange(0, j + 1)) == digits_value(s.subrange(0, j)) * 10
            + digit_val(s[j]));
        lemma_digits_value_prefix(s, j + 1);
    }
}

/// Parses the digits of `v` in `[from, to)` as a decimal number; `None`
/// when the value does not fit 64 bits.
pub fn parse_digits_checked(v: &Vec<char>, from: usize, to: usize) -> (r: Option<u64>)
    requires
        from <= to <= v@.len(),
        forall|k: int| from <= k < to ==> is_digit(v@[k]),
    ensures
        match r {
            Some(x) => x as int == digits_value(v@.subrange(from as int, to as int)),
            None => digits_value(v@.subrange(from as int, to as int)) > u64::MAX as int,
        },
{
    let ghost whole = v@.subrange(from as int, to as int);
    let mut acc: u64 = 0;
    let mut i: usize = from;
    while i < to
        invariant
            from <= i <= to <= v@.len(),
            whole == v@.subrange(from as int, to as int),
            forall|k: int| from <= k < to ==> is_digit(v@[k]),
            acc as int == digits_value(v@.subrange(from as int, i as int)),
        decreases to - i,
    {
        let ghost pre = v@.subrange(from as int, i as int);
        let ghost pre2 = v@.subrange(from as int, i + 1);
        proof {
            assert(pre2.drop_last() =~= pre);
            lemma_digits_value_nonneg(pre);
        }
        let d: u64 = (v[i] as u32 - 48) as u64;
        if acc > (u64::MAX - d) / 10 {
            proof {
                let q = (u64::MAX as int - d) / 10;
                assert(u64::MAX as int - d == 10 * q + (u64::MAX as int - d) % 10);
                assert(digits_value(pre2) > u64::MAX as int);
                assert(whole.subrange(0, (i + 1 - from) as int) =~= pre2);
                lemma_digits_value_prefix(whole, i + 1 - from);
            }
            return None;
        }
        proof {
            let q = (u64::MAX as int - d) / 10;
            assert(u64::MAX as int - d == 10 * q + (u64::MAX as int - d) % 10);
            assert(acc * 10 + d <= u64::MAX as int);
        }
        acc = acc * 10 + d;
        i = i + 1;
    }
    assert(v@.subrange(from as int, to as int) =~= v@.subrange(from as int, i as int));
    Some(acc)
}


/// The character of one decimal digit.
pub open spec fn digit_char(d: int) -> char {
    if d == 0 {
        '0'
    } else if d == 1 {
        '1'
    } else if d == 2 {
        '2'
    } else if d == 3 {
        '3'
    } else if d == 4 {
        '4'
    } else if d == 5 {
        '5'
    } else if d == 6 {
        '6'
    } else if d == 7 {
        '7'
    } else if d == 8 {
        '8'
    } else {
        '9'
    }
}

/// Writes one decimal digit.
pub fn digit_char_exec(d: u8) -> (r: char)
    requires
        d <= 9,
    ensures
        r == digit_char(d as int),
{
    if d == 0 {
        '0'
    } else if d == 1 {
        '1'
    } else if d == 2 {
        '2'
    } else if d == 3 {
        '3'
    } else if d == 4 {
        '4'
    } else if d == 5 {
        '5'
    } else if d == 6 {
        '6'
    } else if d == 7 {
        '7'
    } else if d == 8 {
        '8'
    } else {
        '9'
    }
}

/// Decimal spelling of a number, most significant digit first.
pub open spec fn spec_u64_dec(n: int) -> Seq<char>
    decreases n,
{
    if n < 10 {
        seq![digit_char(n)]
    } else {
        spec_u64_dec(n / 10).push(digit_char(n % 10))
    }
}

/// Spells a number in decimal.
pub fn u64_dec_chars(n: u64) -> (v: Vec<char>)
    ensures
        v@ == spec_u64_dec(n as int),
    decreases n,
{
    if n < 10 {
        let mut v: Vec<char> = Vec::new();
        v.push(digit_char_exec(n as u8));
        v
    } else {
        let mut v = u64_dec_chars(n / 10);
        v.push(digit_char_exec((n % 10) as u8));
        v
    }
}

/// `a` equals `b` up to folding of uppercase letters in `a`; `b` is
/// expected to be lowercase.
pub open spec fn eqi(a: char, b: char) -> bool {
    a == b || (65 <= a as u32 <= 90 && a as u32 + 32 == b as u32)
}

/// Decides `eqi` executably.
pub fn eqi_exec(a: char, b: char) -> (r: bool)
    ensures
        r == eqi(a, b),
{
    if a == b {
        return true;
    }
    let ua = a as u32;
    65 <= ua && ua <= 90 && ua + 32 == b as u32
}

/// `s` ends with the lowercase pattern `p`, ignoring case.
pub open spec fn ends_with_ci(s: Seq<char>, p: Seq<char>) -> bool {
    s.len() >= p.len() && forall|k: int|
        0 <= k < p.len() ==> eqi(s[s.len() - p.len() + k], p[k])
}

/// Decides whether `v` ends with the lowercase pattern `p`, ignoring case.
pub fn chars_end_with_ci(v: &Vec<char>, p: &Vec<char>) -> (r: bool)
    ensures
        r == ends_with_ci(v@, p@),
{
    let n = v.len();
    let m = p.len();
    if m > n {
        return false;
    }
    let base = n - m;
    let mut k: usize = 0;
    while k < m
        invariant
            m <= n,
            n == v@.len(),
            m == p@.len(),
            base == n - m,
            k <= m,
            forall|j: int| 0 <= j < k ==> eqi(v@[base + j], p@[j]),
        decreases m - k,
    {
        if !eqi_exec(v[base + k], p[k]) {
            return false;
        }
        k = k + 1;
    }
    true
}

/// Leading whitespace removed.
pub open spec fn trim_front(s: Seq<char>) -> Seq<char>
    decreases s.len(),
{
    if s.len() > 0 && is_ws(s[0]) {
        trim_front(s.subrange(1, s.len() as int))
    } else {
        s
    }
}

/// Trailing whitespace removed.
pub open spec fn trim_back(s: Seq<char>) -> Seq<char>
    decreases s.len(),
{
    if s.len() > 0 && is_ws(s[s.len() - 1]) {
        trim_back(s.subrange(0, s.len() - 1))
    } else {
        s
    }
}

/// Whitespace removed from both ends.
pub open spec fn spec_trim(s: Seq<char>) -> Seq<char> {
    trim_back(trim_front(s))
}

/// Copies `v` with leading and trailing whitespace removed.
pub fn chars_trim(v: &Vec<char>) -> (r: Vec<char>)
    ensures
        r@ == spec_trim(v@),
{
    let n = v.len();
    assert(v@.subrange(0, n as int) =~= v@);
    let mut a: usize = 0;
    while a < n && is_ws_exec(v[a])
        invariant
            a <= n,
            n == v@.len(),
            trim_front(v@) == trim_front(v@.subrange(a as int, n as int)),
        decreases n - a,
    {
        assert(v@.subrange(a as int, n as int).subrange(1, (n - a) as int) =~= v@.subrange(
            a + 1,
            n as int,
        ));
        a = a + 1;
    }
    assert(trim_front(v@) == v@.subrange(a as int, n as int));
    let mut b: usize = n;
    while b > a && is_ws_exec(v[b - 1])
        invariant
            a <= b <= n,
            n == v@.len(),
            trim_front(v@) == v@.subrange(a as int, n as int),
            trim_back(v@.subrange(a as int, n as int)) == trim_back(
                v@.subrange(a as int, b as int),
            ),
        decreases b,
    {
        assert(v@.subrange(a as int, b as int).subrange(0, (b - a - 1) as int) =~= v@.subrange(
            a as int,
            b - 1,
        ));
        b = b - 1;
    }
    assert(trim_back(v@.subrange(a as int, b as int)) == v@.subrange(a as int, b as int));
    let mut r: Vec<char> = Vec::new();
    let mut i: usize = a;
    while i < b
        invariant
            a <= i <= b <= n,
            n == v@.len(),
            r@ == v@.subrange(a as int, i as int),
        decreases b - i,
    {
        r.push(v[i]);
        i = i + 1;
        assert(r@ =~= v@.subrange(a as int, i as int));
    }
    assert(r@ =~= v@.subrange(a as int, b as int));
    r
}

/// Multiplies with saturation at the largest 64-bit value.
pub fn sat_mul_u64(a: u64, m: u64) -> (r: u64)
    requires
        m >= 1,
    ensures
        r as int == min(a as int * m as int, u64::MAX as int),
{
    if a > u64::MAX / m {
        proof {
            assert(a as int * m as int > u64::MAX as int) by (nonlinear_arith)
                requires
                    a as int > u64::MAX as int / m as int,
                    m as int >= 1,
            ;
        }
        u64::MAX
    } else {
        proof {
            assert(a as int * m as int <= u64::MAX as int) by (nonlinear_arith)
                requires
                    a as int <= u64::MAX as int / m as int,
                    m as int >= 1,
            ;
        }
        a * m
    }
}

} // verus!
