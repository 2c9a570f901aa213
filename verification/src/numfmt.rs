//! Decimal rendering of unsigned values and of fixed-point "tenths of a
//! percent" quantities, with the right-aligned minimum field width the
//! status line relies on for layout stability.

use vstd::prelude::*;

verus! {

/// The character for a single decimal digit.
pub open spec fn digit_char(d: nat) -> char {
    if d == 0 {
        '0'
    } else if d == 1 {
        '1'
    } else if d == 2 {
        '2'
    } else if d == 3 {
        '3'
    } else if d == 4 {
        '4'
    } else if d == 5 {
        '5'
    } else if d == 6 {
        '6'
    } else if d == 7 {
        '7'
    } else if d == 8 {
        '8'
    } else {
        '9'
    }
}

/// Decimal digits of `n`, most significant first, no leading zeros
/// (a single `'0'` for zero).
pub open spec fn spec_decimal(n: nat) -> Seq<char>
    decreases n,
{
    if n < 10 {
        seq![digit_char(n)]
    } else {
        spec_decimal(n / 10) + seq![digit_char(n % 10)]
    }
}

/// One decimal digit as a string slice.
fn digit_str(d: u64) -> (r: &'static str)
    requires
        d < 10,
    ensures
        r@ =~= seq![digit_char(d as nat)],
{
    proof {
        reveal_strlit("0");
        reveal_strlit("1");
        reveal_strlit("2");
        reveal_strlit("3");
        reveal_strlit("4");
        reveal_strlit("5");
        reveal_strlit("6");
        reveal_strlit("7");
        reveal_strlit("8");
        reveal_strlit("9");
    }
    if d == 0 {
        "0"
    } else if d == 1 {
        "1"
    } else if d == 2 {
        "2"
    } else if d == 3 {
        "3"
    } else if d == 4 {
        "4"
    } else if d == 5 {
        "5"
    } else if d == 6 {
        "6"
    } else if d == 7 {
        "7"
    } else if d == 8 {
        "8"
    } else {
        "9"
    }
}

/// Render `n` in decimal.
pub fn decimal_string(n: u64) -> (r: String)
    ensures
        r@ == spec_decimal(n as nat),
    decreases n,
{
    if n < 10 {
        String::from_str(digit_str(n))
    } else {
        let high = decimal_string(n / 10);
        high.concat(digit_str(n % 10))
    }
}

/// A value in tenths rendered with exactly one fractional digit:
/// the integer part, a dot, then the remaining tenth.
pub open spec fn spec_tenths(t: nat) -> Seq<char> {
    spec_decimal(t / 10) + seq!['.'] + seq![digit_char(t % 10)]
}

/// Render a value held in tenths with one fractional digit.
pub fn tenths_string(t: u64) -> (r: String)
    ensures
        r@ == spec_tenths(t as nat),
{
    proof {
        reveal_strlit(".");
    }
    let mut s = decimal_string(t / 10);
    s.append(".");
    s.append(digit_str(t % 10));
    s
}

/// Render a number below one hundred zero-padded to exactly two digits.
pub fn digit_pair(n: u32) -> (r: String)
    requires
        n < 100,
    ensures
        r@ =~= seq![digit_char(n as nat / 10), digit_char(n as nat % 10)],
{
    let mut s = String::from_str(digit_str((n / 10) as u64));
    s.append(digit_str((n % 10) as u64));
    s
}

/// `s` padded on the left with spaces up to `width` characters;
/// unchanged when already that wide.
pub open spec fn spec_pad_left(s: Seq<char>, width: nat) -> Seq<char>
    decreases width - s.len(),
{
    if s.len() >= width {
        s
    } else {
        spec_pad_left(seq![' '] + s, width)
    }
}

/// Right-align `s` in a field of at least `width` characters.
pub fn pad_left(s: String, width: usize) -> (r: String)
    ensures
        r@ == spec_pad_left(s@, width as nat),
    decreases width - s@.len(),
{
    proof {
        reveal_strlit(" ");
    }
    let n = s.as_str().unicode_len();
    if n >= width {
        s
    } else {
        let mut sp = String::from_str(" ");
        sp.append(s.as_str());
        proof {
            assert(sp@ =~= seq![' '] + s@);
        }
        pad_left(sp, width)
    }
}

/// A value in tenths rendered with one fractional digit and right-aligned
/// to a field of at least five characters, the status line's numeric layout.
pub open spec fn spec_tenths_field(t: nat) -> Seq<char> {
    spec_pad_left(spec_tenths(t), 5)
}

/// Render a tenths value into the fixed five-wide numeric field.
pub fn tenths_field(t: u64) -> (r: String)
    ensures
        r@ == spec_tenths_field(t as nat),
{
    pad_left(tenths_string(t), 5)
}

} // verus!
