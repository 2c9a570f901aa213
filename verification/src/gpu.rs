//! Extraction of a GPU utilization figure from the text report of the
//! vendor's monitoring tool.
//!
//! The report is scanned line by line; the first line that starts with `0`
//! (the device index) and carries at least fifteen whitespace-separated
//! columns has its fifteenth column read as a percentage. Percent signs are
//! ignored, the numeral may carry a fractional part, and the value is taken
//! in tenths of a percent, truncated past the first fractional digit. A
//! report with no such line reads as zero.

use vstd::prelude::*;
use crate::metrics::is_digit_char;

verus! {

/// Horizontal whitespace that separates the report's columns.
pub open spec fn is_space(c: char) -> bool {
    c == ' ' || c == '\t' || c == '\r'
}

/// The index of the first occurrence of `c` in `s`, or `s.len()` when
/// `c` does not occur.
pub open spec fn find_pos(s: Seq<char>, c: char) -> nat
    decreases s.len(),
{
    if s.len() == 0 {
        0
    } else if s[0] == c {
        0
    } else {
        1 + find_pos(s.drop_first(), c)
    }
}

pub proof fn lemma_find_pos(s: Seq<char>, c: char)
    ensures
        find_pos(s, c) <= s.len(),
        find_pos(s, c) < s.len() ==> s[find_pos(s, c) as int] == c,
        forall|j: int| 0 <= j < find_pos(s, c) ==> s[j] != c,
    decreases s.len(),
{
    if s.len() > 0 && s[0] != c {
        lemma_find_pos(s.drop_first(), c);
        assert forall|j: int| 0 <= j < find_pos(s, c) implies s[j] != c by {
            if j > 0 {
                assert(s.drop_first()[j - 1] == s[j]);
            }
        }
    }
}

/// `find_pos` is the unique cut: no `c` before it, and `c` (or the end) at it.
pub proof fn lemma_find_pos_unique(s: Seq<char>, c: char, i: int)
    requires
        0 <= i <= s.len(),
        forall|j: int| 0 <= j < i ==> s[j] != c,
        i < s.len() ==> s[i] == c,
    ensures
        find_pos(s, c) == i,
{
    lemma_find_pos(s, c);
    let p = find_pos(s, c) as int;
    if p < i {
        assert(s[p] != c);
    }
    if p > i {
        assert(s[i] != c);
    }
}

/// `s` with every percent sign removed.
pub open spec fn strip_pct(s: Seq<char>) -> Seq<char>
    decreases s.len(),
{
    if s.len() == 0 {
        Seq::empty()
    } else {
        strip_pct(s.drop_last()) + if s.last() == '%' {
            Seq::<char>::empty()
        } else {
            seq![s.last()]
        }
    }
}

/// Every character of `s` is a decimal digit.
pub open spec fn all_digits(s: Seq<char>) -> bool {
    forall|j: int| 0 <= j < s.len() ==> is_digit_char(#[trigger] s[j])
}

/// The numeric value of a digit character.
pub open spec fn digit_val(c: char) -> nat {
    if c == '0' {
        0
    } else if c == '1' {
        1
    } else if c == '2' {
        2
    } else if c == '3' {
        3
    } else if c == '4' {
        4
    } else if c == '5' {
        5
    } else if c == '6' {
        6
    } else if c == '7' {
        7
    } else if c == '8' {
        8
    } else {
        9
    }
}

/// The value of a string of decimal digits, most significant first.
pub open spec fn digits_val(s: Seq<char>) -> nat
    decreases s.len(),
{
    if s.len() == 0 {
        0
    } else {
        digits_val(s.drop_last()) * 10 + digit_val(s.last())
    }
}

/// Ten raised to `e`.
pub open spec fn pow10(e: nat) -> nat
    decreases e,
{
    if e == 0 {
        1
    } else {
        10 * pow10((e - 1) as nat)
    }
}

pub proof fn lemma_digits_val_bound(s: Seq<char>, k: nat)
    requires
        s.len() <= k,
    ensures
        digits_val(s) < pow10(k),
    decreases k,
{
    if s.len() == 0 {
        lemma_pow10_pos(k);
    } else {
        lemma_digits_val_bound(s.drop_last(), (k - 1) as nat);
        assert(digit_val(s.last()) <= 9);
    }
}

proof fn lemma_pow10_pos(e: nat)
    ensures
        pow10(e) >= 1,
    decreases e,
{
    if e > 0 {
        lemma_pow10_pos((e - 1) as nat);
    }
}

proof fn lemma_pow10_mono(a: nat, b: nat)
    requires
        a <= b,
    ensures
        pow10(a) <= pow10(b),
    decreases b,
{
    lemma_pow10_pos(a);
    if a < b {
        lemma_pow10_mono(a, (b - 1) as nat);
        lemma_pow10_pos((b - 1) as nat);
    }
}

proof fn lemma_pow10_nine()
    ensures
        pow10(9) == 1000000000,
{
    reveal_with_fuel(pow10, 10);
}

/// The length of the leading run of non-space characters of `s`.
pub open spec fn token_len(s: Seq<char>) -> nat
    decreases s.len(),
{
    if s.len() == 0 || is_space(s[0]) {
        0
    } else {
        1 + token_len(s.drop_first())
    }
}

pub proof fn lemma_token_len(s: Seq<char>)
    ensures
        token_len(s) <= s.len(),
        token_len(s) < s.len() ==> is_space(s[token_len(s) as int]),
        forall|j: int| 0 <= j < token_len(s) ==> !is_space(s[j]),
    decreases s.len(),
{
    if s.len() > 0 && !is_space(s[0]) {
        lemma_token_len(s.drop_first());
        assert forall|j: int| 0 <= j < token_len(s) implies !is_space(s[j]) by {
            if j > 0 {
                assert(s.drop_first()[j - 1] == s[j]);
            }
        }
    }
}

/// `token_len` is the unique cut: no space before it, a space (or the end)
/// at it.
pub proof fn lemma_token_len_unique(s: Seq<char>, i: int)
    requires
        0 <= i <= s.len(),
        forall|j: int| 0 <= j < i ==> !is_space(s[j]),
        i < s.len() ==> is_space(s[i]),
    ensures
        token_len(s) == i,
{
    lemma_token_len(s);
    let t = token_len(s) as int;
    if t < i {
        assert(!is_space(s[t]));
    }
    if t > i {
        assert(is_space(s[i]));
    }
}

/// The whitespace-separated columns of `s`, in order.
pub open spec fn spec_tokens(s: Seq<char>) -> Seq<Seq<char>>
    decreases s.len(),
    via spec_tokens_decreases
{
    if s.len() == 0 {
        Seq::empty()
    } else if is_space(s[0]) {
        spec_tokens(s.drop_first())
    } else {
        seq![s.take(token_len(s) as int)] + spec_tokens(s.skip(token_len(s) as int))
    }
}

#[via_fn]
proof fn spec_tokens_decreases(s: Seq<char>) {
    if s.len() > 0 && !is_space(s[0]) {
        lemma_token_len(s);
    }
}

/// The tenths-of-a-percent reading of a numeral already stripped of percent
/// signs: decimal digits, optionally a dot and more digits, truncated past
/// the first fractional digit. Numerals with more than nine integer digits
/// are not accepted.
pub open spec fn spec_parse_tenths(u: Seq<char>) -> Option<u64> {
    let dot = find_pos(u, '.') as int;
    let ip = u.take(dot);
    let fp = if dot < u.len() {
        u.skip(dot + 1)
    } else {
        Seq::<char>::empty()
    };
    if all_digits(ip) && all_digits(fp) && ip.len() + fp.len() >= 1 && ip.len() <= 9 {
        Some(
            (digits_val(ip) * 10 + if fp.len() > 0 {
                digit_val(fp[0])
            } else {
                0
            }) as u64,
        )
    } else {
        None
    }
}

/// The value a report line yields: the fifteenth column read as a
/// percentage, provided the line starts with `0` and has that column.
pub open spec fn spec_line_value(line: Seq<char>) -> Option<u64> {
    if line.len() > 0 && line[0] == '0' && spec_tokens(line).len() > 14 {
        spec_parse_tenths(strip_pct(spec_tokens(line)[14]))
    } else {
        None
    }
}

/// The whole report's reading: the first line that yields a value, else
/// zero.
pub open spec fn spec_gpu_tenths(s: Seq<char>) -> u64
    decreases s.len(),
{
    let p = find_pos(s, '\n') as int;
    match spec_line_value(s.take(p)) {
        Some(v) => v,
        None => if p >= s.len() {
            0
        } else {
            spec_gpu_tenths(s.skip(p + 1))
        },
    }
}

fn is_space_exec(c: char) -> (b: bool)
    ensures
        b == is_space(c),
{
    c == ' ' || c == '\t' || c == '\r'
}

fn is_digit_exec(c: char) -> (b: bool)
    ensures
        b == is_digit_char(c),
{
    c == '0' || c == '1' || c == '2' || c == '3' || c == '4' || c == '5' || c == '6' || c == '7'
        || c == '8' || c == '9'
}

fn digit_val_exec(c: char) -> (d: u64)
    requires
        is_digit_char(c),
    ensures
        d == digit_val(c),
        d <= 9,
{
    if c == '0' {
        0
    } else if c == '1' {
        1
    } else if c == '2' {
        2
    } else if c == '3' {
        3
    } else if c == '4' {
        4
    } else if c == '5' {
        5
    } else if c == '6' {
        6
    } else if c == '7' {
        7
    } else if c == '8' {
        8
    } else {
        9
    }
}

fn str_to_chars(s: &str) -> (v: Vec<char>)
    ensures
        v@ == s@,
{
    let n = s.unicode_len();
    let mut v: Vec<char> = Vec::new();
    let mut i: usize = 0;
    while i < n
        invariant
            i <= n,
            n == s@.len(),
            v@ == s@.take(i as int),
        decreases n - i,
    {
        let c = s.get_char(i);
        v.push(c);
        proof {
            assert(v@ =~= s@.take(i as int + 1));
        }
        i += 1;
    }
    proof {
        assert(s@.take(n as int) =~= s@);
    }
    v
}

fn find_newline(s: &str) -> (p: usize)
    ensures
        p == find_pos(s@, '\n'),
        p <= s@.len(),
{
    let n = s.unicode_len();
    let mut i: usize = 0;
    while i < n
        invariant
            i <= n,
            n == s@.len(),
            forall|j: int| 0 <= j < i ==> s@[j] != '\n',
        decreases n - i,
    {
        if s.get_char(i) == '\n' {
            proof {
                lemma_find_pos_unique(s@, '\n', i as int);
            }
            return i;
        }
        i += 1;
    }
    proof {
        lemma_find_pos_unique(s@, '\n', n as int);
    }
    n
}

fn find_in_vec(v: &Vec<char>, c: char) -> (p: usize)
    ensures
        p == find_pos(v@, c),
        p <= v@.len(),
{
    let mut i: usize = 0;
    while i < v.len()
        invariant
            i <= v@.len(),
            forall|j: int| 0 <= j < i ==> v@[j] != c,
        decreases v@.len() - i,
    {
        if v[i] == c {
            proof {
                lemma_find_pos_unique(v@, c, i as int);
            }
            return i;
        }
        i += 1;
    }
    proof {
        lemma_find_pos_unique(v@, c, v@.len() as int);
    }
    v.len()
}

fn strip_pct_exec(v: &Vec<char>) -> (r: Vec<char>)
    ensures
        r@ == strip_pct(v@),
{
    let mut r: Vec<char> = Vec::new();
    let mut i: usize = 0;
    while i < v.len()
        invariant
            i <= v@.len(),
            r@ == strip_pct(v@.take(i as int)),
        decreases v@.len() - i,
    {
        proof {
            assert(v@.take(i as int + 1).drop_last() =~= v@.take(i as int));
            assert(v@.take(i as int + 1).last() == v@[i as int]);
        }
        let c = v[i];
        if c != '%' {
            r.push(c);
        }
        i += 1;
    }
    proof {
        assert(v@.take(v@.len() as int) =~= v@);
    }
    r
}

fn token_len_exec(v: &Vec<char>, from: usize) -> (n: usize)
    requires
        from <= v@.len(),
    ensures
        n == token_len(v@.skip(from as int)),
        from + n <= v@.len(),
{
    let ghost s = v@.skip(from as int);
    let mut i = from;
    while i < v.len() && !(v[i] == ' ' || v[i] == '\t' || v[i] == '\r')
        invariant
            from <= i <= v@.len(),
            s == v@.skip(from as int),
            forall|j: int| from <= j < i ==> !is_space(v@[j]),
        decreases v@.len() - i,
    {
        i += 1;
    }
    proof {
        assert forall|j: int| 0 <= j < i - from implies !is_space(s[j]) by {
            assert(s[j] == v@[from + j]);
        }
        if i < v@.len() {
            assert(is_space(v@[i as int]));
            assert(s[i - from as int] == v@[i as int]);
        }
        lemma_token_len_unique(s, i - from as int);
    }
    i - from
}

fn nth_token(v: &Vec<char>, from: usize, n: usize) -> (r: Option<Vec<char>>)
    requires
        from <= v@.len(),
    ensures
        match r {
            Some(t) => n < spec_tokens(v@.skip(from as int)).len() && t@ == spec_tokens(
                v@.skip(from as int),
            )[n as int],
            None => n >= spec_tokens(v@.skip(from as int)).len(),
        },
    decreases v@.len() - from,
{
    let ghost s = v@.skip(from as int);
    if from == v.len() {
        proof {
            assert(s =~= Seq::<char>::empty());
        }
        return None;
    }
    proof {
        assert(s[0] == v@[from as int]);
    }
    let c0 = v[from];
    if is_space_exec(c0) {
        proof {
            assert(s.drop_first() =~= v@.skip(from as int + 1));
        }
        nth_token(v, from + 1, n)
    } else {
        let tl = token_len_exec(v, from);
        proof {
            lemma_token_len(s);
            assert(tl >= 1);
            assert(s.skip(tl as int) =~= v@.skip((from + tl) as int));
            assert(spec_tokens(s) =~= seq![s.take(tl as int)] + spec_tokens(s.skip(tl as int)));
        }
        if n == 0 {
            let end = from + tl;
            let mut t: Vec<char> = Vec::new();
            let mut idx: usize = from;
            while idx < end
                invariant
                    from <= idx <= end,
                    end == from + tl,
                    end <= v@.len(),
                    t@ == v@.subrange(from as int, idx as int),
                decreases end - idx,
            {
                let c = v[idx];
                t.push(c);
                proof {
                    assert(t@ =~= v@.subrange(from as int, idx as int + 1));
                }
                idx += 1;
            }
            proof {
                assert(s.take(tl as int) =~= v@.subrange(from as int, from as int + tl as int));
            }
            Some(t)
        } else {
            nth_token(v, from + tl, n - 1)
        }
    }
}

fn parse_pct_tenths(tok: &Vec<char>) -> (r: Option<u64>)
    ensures
        r == spec_parse_tenths(strip_pct(tok@)),
{
    let u = strip_pct_exec(tok);
    let ghost us = u@;
    let len = u.len();
    let dot = find_in_vec(&u, '.');
    proof {
        lemma_find_pos(us, '.');
    }
    let ghost ip = us.take(dot as int);
    let ghost fp = if (dot as int) < us.len() {
        us.skip(dot as int + 1)
    } else {
        Seq::<char>::empty()
    };
    // integer part: every character a digit, at most nine of them
    let mut ok = true;
    let mut j: usize = 0;
    while j < dot
        invariant
            j <= dot <= len,
            len == us.len(),
            us == u@,
            ip == us.take(dot as int),
            ok == (forall|k: int| 0 <= k < j ==> is_digit_char(#[trigger] ip[k])),
        decreases dot - j,
    {
        proof {
            assert(ip[j as int] == us[j as int]);
        }
        let d = is_digit_exec(u[j]);
        ok = ok && d;
        j += 1;
    }
    // fractional part
    let mut fok = true;
    if dot < len {
        let mut k: usize = dot + 1;
        while k < len
            invariant
                dot as int + 1 <= k as int <= len,
                len == us.len(),
                us == u@,
                (dot as int) < us.len(),
                fp == us.skip(dot as int + 1),
                fok == (forall|m: int| 0 <= m < k - dot - 1 ==> is_digit_char(#[trigger] fp[m])),
            decreases len - k,
        {
            proof {
                assert(fp[k - dot - 1 as int] == us[k as int]);
            }
            let d = is_digit_exec(u[k]);
            fok = fok && d;
            k += 1;
        }
    }
    proof {
        assert(ip.len() == dot as int);
        assert(fp.len() == if (dot as int) < us.len() {
            us.len() - dot - 1
        } else {
            0int
        });
    }
    if !(ok && fok) || dot > 9 || (dot == 0 && (dot >= len || len - dot <= 1)) {
        proof {
            if ok && fok && dot <= 9 {
                assert(ip.len() + fp.len() < 1);
            }
        }
        return None;
    }
    // accumulate the integer part
    let mut val: u64 = 0;
    let mut j2: usize = 0;
    while j2 < dot
        invariant
            j2 <= dot <= 9,
            dot <= len,
            len == us.len(),
            us == u@,
            ip == us.take(dot as int),
            all_digits(ip),
            val == digits_val(ip.take(j2 as int)),
            val < pow10(j2 as nat),
        decreases dot - j2,
    {
        proof {
            assert(ip.take(j2 as int + 1).drop_last() =~= ip.take(j2 as int));
            assert(ip.take(j2 as int + 1).last() == ip[j2 as int]);
            assert(ip[j2 as int] == us[j2 as int]);
            lemma_digits_val_bound(ip.take(j2 as int + 1), (j2 + 1) as nat);
            lemma_pow10_mono((j2 + 1) as nat, 9);
            lemma_pow10_nine();
        }
        let d = digit_val_exec(u[j2]);
        val = val * 10 + d;
        j2 += 1;
    }
    proof {
        assert(ip.take(dot as int) =~= ip);
        lemma_digits_val_bound(ip, 9);
        lemma_pow10_nine();
    }
    let fd: u64 = if dot + 1 < len {
        proof {
            assert(fp[0] == us[dot as int + 1]);
        }
        digit_val_exec(u[dot + 1])
    } else {
        0
    };
    proof {
        if (dot as int) < us.len() && fp.len() == 0 {
            assert(fd == 0);
        }
    }
    Some(val * 10 + fd)
}

fn line_value(line: &str) -> (r: Option<u64>)
    ensures
        r == spec_line_value(line@),
{
    let n = line.unicode_len();
    if n == 0 {
        return None;
    }
    if line.get_char(0) != '0' {
        return None;
    }
    let chars = str_to_chars(line);
    proof {
        assert(chars@.skip(0) =~= chars@);
    }
    match nth_token(&chars, 0, 14) {
        Some(t) => parse_pct_tenths(&t),
        None => None,
    }
}

/// Read the GPU utilization out of the monitoring tool's report, in tenths
/// of a percent: the first line starting with `0` whose fifteenth column
/// parses as a percentage; zero when no line qualifies.
pub fn gpu_usage_tenths(report: &str) -> (r: u64)
    ensures
        r == spec_gpu_tenths(report@),
    decreases report@.len(),
{
    let len = report.unicode_len();
    let p = find_newline(report);
    let line = report.substring_char(0, p);
    proof {
        assert(line@ =~= report@.take(p as int));
    }
    match line_value(line) {
        Some(v) => v,
        None => {
            if p >= len {
                0
            } else {
                let rest = report.substring_char(p + 1, len);
                proof {
                    assert(rest@ =~= report@.skip(p as int + 1));
                }
                gpu_usage_tenths(rest)
            }
        },
    }
}

} // verus!
