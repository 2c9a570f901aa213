//! Fixed-point percentage computation for the sampled metrics.
//!
//! Percentages are held in tenths of a percent, so one fractional digit
//! renders exactly; `used / total` becomes `(used * 1000 + total / 2) / total`
//! tenths, rounding half up.

use vstd::prelude::*;
use crate::numfmt::{spec_decimal, spec_tenths, spec_tenths_field, spec_pad_left, digit_char};

verus! {

/// `used / total` as tenths of a percent, rounded half up;
/// zero when `total` is zero.
pub open spec fn spec_usage_tenths(used: int, total: int) -> int {
    if total == 0 {
        0
    } else {
        (used * 1000 + total / 2) / total
    }
}

/// The rounded ratio stays within zero and one hundred percent.
pub proof fn lemma_usage_tenths_bounds(used: int, total: int)
    requires
        0 <= used <= total,
    ensures
        0 <= spec_usage_tenths(used, total) <= 1000,
{
    if total != 0 {
        assert(0 <= (used * 1000 + total / 2) / total <= 1000) by (nonlinear_arith)
            requires
                0 <= used <= total,
                total > 0,
        ;
    }
}

/// Memory usage: `used` out of `total` bytes, in tenths of a percent.
pub fn mem_usage_tenths(used: u64, total: u64) -> (r: u32)
    requires
        used <= total,
    ensures
        r == spec_usage_tenths(used as int, total as int),
        r <= 1000,
{
    proof {
        lemma_usage_tenths_bounds(used as int, total as int);
    }
    if total == 0 {
        0
    } else {
        let t = total as u128;
        let v = ((used as u128) * 1000 + t / 2) / t;
        v as u32
    }
}

/// Disk usage: the share of `total` bytes not `available`,
/// in tenths of a percent.
pub fn disk_usage_tenths(available: u64, total: u64) -> (r: u32)
    requires
        available <= total,
    ensures
        r == spec_usage_tenths(total - available, total as int),
        r <= 1000,
{
    mem_usage_tenths(total - available, total)
}

/// A character of a rendered decimal number.
pub open spec fn is_digit_char(c: char) -> bool {
    c == '0' || c == '1' || c == '2' || c == '3' || c == '4' || c == '5' || c == '6' || c == '7'
        || c == '8' || c == '9'
}

proof fn lemma_decimal_all_digits(n: nat)
    ensures
        forall|i: int|
            0 <= i < spec_decimal(n).len() ==> is_digit_char(#[trigger] spec_decimal(n)[i]),
    decreases n,
{
    if n < 10 {
        assert(spec_decimal(n) =~= seq![digit_char(n)]);
        assert(is_digit_char(digit_char(n)));
    } else {
        lemma_decimal_all_digits(n / 10);
        assert(spec_decimal(n) =~= spec_decimal(n / 10) + seq![digit_char(n % 10)]);
        assert forall|i: int| 0 <= i < spec_decimal(n).len() implies is_digit_char(
            #[trigger] spec_decimal(n)[i],
        ) by {
            if i < spec_decimal(n / 10).len() {
                assert(spec_decimal(n)[i] == spec_decimal(n / 10)[i]);
            } else {
                assert(spec_decimal(n)[i] == digit_char(n % 10));
            }
        }
    }
}

proof fn lemma_decimal_len_small(n: nat)
    requires
        n <= 100,
    ensures
        1 <= spec_decimal(n).len() <= 3,
{
    if n < 10 {
        assert(spec_decimal(n) =~= seq![digit_char(n)]);
    } else {
        let m = n / 10;
        assert(spec_decimal(n) =~= spec_decimal(m) + seq![digit_char(n % 10)]);
        assert(m <= 10);
        if m < 10 {
            assert(spec_decimal(m) =~= seq![digit_char(m)]);
        } else {
            assert(m == 10);
            assert(spec_decimal(m) =~= spec_decimal(1nat) + seq![digit_char(0)]);
            assert(spec_decimal(1nat) =~= seq![digit_char(1)]);
        }
    }
}

proof fn lemma_pad_left_chars(s: Seq<char>, width: nat)
    requires
        s.len() <= width,
    ensures
        spec_pad_left(s, width).len() == width,
        forall|i: int|
            0 <= i < width - s.len() ==> #[trigger] spec_pad_left(s, width)[i] == ' ',
        forall|i: int|
            width - s.len() <= i < width ==> #[trigger] spec_pad_left(s, width)[i] == s[i - (
            width - s.len())],
    decreases width - s.len(),
{
    if s.len() < width {
        lemma_pad_left_chars(seq![' '] + s, width);
    }
}

/// How a usage ratio reaches the status line: the rendered field is exactly
/// five characters, right-aligned with spaces, carries exactly one fractional
/// digit after the dot, and everything before the dot is blank padding or
/// decimal digits.
pub proof fn lemma_usage_rendering(available: int, total: int)
    requires
        0 <= available <= total,
        total >= 1,
    ensures
        0 <= spec_usage_tenths(total - available, total) <= 1000,
        spec_tenths_field(spec_usage_tenths(total - available, total) as nat).len() == 5,
        spec_tenths_field(spec_usage_tenths(total - available, total) as nat)[3] == '.',
        is_digit_char(spec_tenths_field(spec_usage_tenths(total - available, total) as nat)[4]),
        forall|i: int|
            0 <= i < 3 ==> (#[trigger] spec_tenths_field(
                spec_usage_tenths(total - available, total) as nat,
            )[i] == ' ' || is_digit_char(
                spec_tenths_field(spec_usage_tenths(total - available, total) as nat)[i],
            )),
{
    lemma_usage_tenths_bounds(total - available, total);
    let u = spec_usage_tenths(total - available, total) as nat;
    let t = spec_tenths(u);
    lemma_decimal_len_small(u / 10);
    lemma_decimal_all_digits(u / 10);
    assert(t.len() == spec_decimal(u / 10).len() + 2);
    lemma_pad_left_chars(t, 5);
    assert(t[t.len() - 2] == '.');
    assert(t[t.len() - 1] == digit_char(u % 10));
}

} // verus!
