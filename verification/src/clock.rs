//! The clock field: the current local time rendered in the fixed pattern
//! `weekday day month hour:minute:second AM|PM` (12-hour clock, two-digit
//! zero-padded numbers, abbreviated English names).

use vstd::prelude::*;
use crate::numfmt::digit_char;
use crate::numfmt::digit_pair;
use chrono::Datelike;
use chrono::Timelike;

verus! {

/// The plain fields of a local wall-clock instant that the clock field
/// renders. `weekday` counts days from Sunday.
#[derive(Debug, Clone, Copy, PartialEq, Eq, Structural)]
pub struct ClockParts {
    pub weekday: u32,
    pub day: u32,
    pub month: u32,
    pub hour: u32,
    pub minute: u32,
    pub second: u32,
}

impl ClockParts {
    /// The ranges a calendar instant satisfies.
    pub open spec fn wf(self) -> bool {
        self.weekday <= 6 && 1 <= self.day <= 31 && 1 <= self.month <= 12 && self.hour <= 23
            && self.minute <= 59 && self.second <= 59
    }
}

/// The abbreviated name of a weekday counted from Sunday.
pub open spec fn spec_weekday_name(w: nat) -> Seq<char> {
    if w == 0 {
        seq!['S', 'u', 'n']
    } else if w == 1 {
        seq!['M', 'o', 'n']
    } else if w == 2 {
        seq!['T', 'u', 'e']
    } else if w == 3 {
        seq!['W', 'e', 'd']
    } else if w == 4 {
        seq!['T', 'h', 'u']
    } else if w == 5 {
        seq!['F', 'r', 'i']
    } else {
        seq!['S', 'a', 't']
    }
}

/// The abbreviated name of a month counted from one.
pub open spec fn spec_month_name(m: nat) -> Seq<char> {
    if m <= 1 {
        seq!['J', 'a', 'n']
    } else if m == 2 {
        seq!['F', 'e', 'b']
    } else if m == 3 {
        seq!['M', 'a', 'r']
    } else if m == 4 {
        seq!['A', 'p', 'r']
    } else if m == 5 {
        seq!['M', 'a', 'y']
    } else if m == 6 {
        seq!['J', 'u', 'n']
    } else if m == 7 {
        seq!['J', 'u', 'l']
    } else if m == 8 {
        seq!['A', 'u', 'g']
    } else if m == 9 {
        seq!['S', 'e', 'p']
    } else if m == 10 {
        seq!['O', 'c', 't']
    } else if m == 11 {
        seq!['N', 'o', 'v']
    } else {
        seq!['D', 'e', 'c']
    }
}

/// A number below one hundred, zero-padded to two digits.
pub open spec fn spec_pad2(n: nat) -> Seq<char> {
    seq![digit_char(n / 10), digit_char(n % 10)]
}

/// The hour on the 12-hour dial: midnight and noon read twelve.
pub open spec fn spec_hour12(h: nat) -> nat {
    if h % 12 == 0 {
        12
    } else {
        h % 12
    }
}

/// The whole clock field for the instant `p`.
pub open spec fn spec_clock_text(p: ClockParts) -> Seq<char> {
    spec_weekday_name(p.weekday as nat) + seq![' '] + spec_pad2(p.day as nat) + seq![' ']
        + spec_month_name(p.month as nat) + seq![' '] + spec_pad2(spec_hour12(p.hour as nat))
        + seq![':'] + spec_pad2(p.minute as nat) + seq![':'] + spec_pad2(p.second as nat)
        + seq![' '] + if p.hour >= 12 {
        seq!['P', 'M']
    } else {
        seq!['A', 'M']
    }
}

fn weekday_str(w: u32) -> (r: &'static str)
    requires
        w <= 6,
    ensures
        r@ =~= spec_weekday_name(w as nat),
{
    proof {
        reveal_strlit("Sun");
        reveal_strlit("Mon");
        reveal_strlit("Tue");
        reveal_strlit("Wed");
        reveal_strlit("Thu");
        reveal_strlit("Fri");
        reveal_strlit("Sat");
    }
    if w == 0 {
        "Sun"
    } else if w == 1 {
        "Mon"
    } else if w == 2 {
        "Tue"
    } else if w == 3 {
        "Wed"
    } else if w == 4 {
        "Thu"
    } else if w == 5 {
        "Fri"
    } else {
        "Sat"
    }
}

fn month_str(m: u32) -> (r: &'static str)
    requires
        1 <= m <= 12,
    ensures
        r@ =~= spec_month_name(m as nat),
{
    proof {
        reveal_strlit("Jan");
        reveal_strlit("Feb");
        reveal_strlit("Mar");
        reveal_strlit("Apr");
        reveal_strlit("May");
        reveal_strlit("Jun");
        reveal_strlit("Jul");
        reveal_strlit("Aug");
        reveal_strlit("Sep");
        reveal_strlit("Oct");
        reveal_strlit("Nov");
        reveal_strlit("Dec");
    }
    if m == 1 {
        "Jan"
    } else if m == 2 {
        "Feb"
    } else if m == 3 {
        "Mar"
    } else if m == 4 {
        "Apr"
    } else if m == 5 {
        "May"
    } else if m == 6 {
        "Jun"
    } else if m == 7 {
        "Jul"
    } else if m == 8 {
        "Aug"
    } else if m == 9 {
        "Sep"
    } else if m == 10 {
        "Oct"
    } else if m == 11 {
        "Nov"
    } else {
        "Dec"
    }
}

/// Render the clock field for the instant `p`.
pub fn format_clock(p: &ClockParts) -> (r: String)
    requires
        p.wf(),
    ensures
        r@ == spec_clock_text(*p),
{
    proof {
        reveal_strlit(" ");
        reveal_strlit(":");
        reveal_strlit("AM");
        reveal_strlit("PM");
        assert(" "@ =~= seq![' ']);
        assert(":"@ =~= seq![':']);
        assert("AM"@ =~= seq!['A', 'M']);
        assert("PM"@ =~= seq!['P', 'M']);
    }
    let hour12: u32 = if p.hour % 12 == 0 {
        12
    } else {
        p.hour % 12
    };
    let mut s = String::from_str(weekday_str(p.weekday));
    s.append(" ");
    let day = digit_pair(p.day);
    s.append(day.as_str());
    s.append(" ");
    s.append(month_str(p.month));
    s.append(" ");
    let h = digit_pair(hour12);
    s.append(h.as_str());
    s.append(":");
    let mi = digit_pair(p.minute);
    s.append(mi.as_str());
    s.append(":");
    let se = digit_pair(p.second);
    s.append(se.as_str());
    s.append(" ");
    if p.hour >= 12 {
        s.append("PM");
    } else {
        s.append("AM");
    }
    proof {
        assert(s@ =~= spec_clock_text(*p));
    }
    s
}

/// Relies on chrono's `Local::now` for the current local wall-clock
/// instant, and on its `Datelike` / `Timelike` accessors, whose documented
/// ranges are days from Sunday 0..=6, day of month 1..=31, month 1..=12,
/// hour 0..=23, minute 0..=59 and second 0..=59.
#[verifier::external_body]
fn local_now_parts() -> (r: ClockParts)
    ensures
        r.wf(),
{
    let now = chrono::Local::now();
    ClockParts {
        weekday: now.weekday().num_days_from_sunday(),
        day: now.day(),
        month: now.month(),
        hour: now.hour(),
        minute: now.minute(),
        second: now.second(),
    }
}

/// Sample the wall clock: the current local instant, field by field.
pub fn sample_clock() -> (r: ClockParts)
    ensures
        r.wf(),
{
    local_now_parts()
}

} // verus!
