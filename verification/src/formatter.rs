//! Assembly of the status line: every current value rendered into one
//! delimited line with fixed field order, fixed-width numeric fields and
//! glyph iconography, so the downstream bar renderer sees a stable layout.

use vstd::prelude::*;
use crate::clock::ClockParts;
use crate::clock::spec_clock_text;
use crate::clock::format_clock;
use crate::network::NetIcon;
use crate::numfmt::spec_tenths_field;
use crate::numfmt::spec_decimal;
use crate::numfmt::tenths_field;
use crate::numfmt::decimal_string;

verus! {

/// The glyph for the chosen link type.
pub open spec fn spec_net_glyph(icon: NetIcon) -> Seq<char> {
    match icon {
        NetIcon::Ethernet => "\u{f796}"@,
        NetIcon::Wifi => "\u{f1eb}"@,
        NetIcon::Disconnected => "\u{f071}"@,
    }
}

/// A glyph wrapped in the icon-font span markup.
pub open spec fn spec_span(glyph: Seq<char>) -> Seq<char> {
    "<span font_desc='Font Awesome 6 Free Solid'>"@ + glyph + "</span>"@
}

/// One metric segment: icon span, a space, the five-wide one-fractional
/// digit value, and a percent sign.
pub open spec fn spec_metric_segment(glyph: Seq<char>, tenths: nat) -> Seq<char> {
    spec_span(glyph) + " "@ + spec_tenths_field(tenths) + "%"@
}

/// Every current value the formatter renders in one tick.
#[derive(Debug, Clone, Copy, PartialEq, Eq, Structural)]
pub struct StatusInput {
    pub disk_main_tenths: u32,
    pub disk_other_tenths: u32,
    pub mem_tenths: u32,
    pub cpu_tenths: u32,
    pub net_icon: NetIcon,
    pub volume_percent: u32,
    pub clock: ClockParts,
}

/// The whole status line for one tick, in the fixed field order: the two
/// disks, memory, CPU, the link icon, the volume percentage and the clock,
/// joined by ` | `.
pub open spec fn spec_status_line(inp: StatusInput) -> Seq<char> {
    spec_metric_segment("\u{f015}"@, inp.disk_main_tenths as nat) + " | "@ + spec_metric_segment(
        "\u{f0a0}"@,
        inp.disk_other_tenths as nat,
    ) + " | "@ + spec_metric_segment("\u{f538}"@, inp.mem_tenths as nat) + " | "@
        + spec_metric_segment("\u{f2db}"@, inp.cpu_tenths as nat) + " | "@ + spec_span(
        spec_net_glyph(inp.net_icon),
    ) + " | "@ + spec_span("\u{f025}"@) + " "@ + spec_decimal(inp.volume_percent as nat) + "% | "@
        + spec_span("\u{f017}"@) + " "@ + spec_clock_text(inp.clock)
}

fn net_glyph(icon: NetIcon) -> (r: &'static str)
    ensures
        r@ == spec_net_glyph(icon),
{
    match icon {
        NetIcon::Ethernet => "\u{f796}",
        NetIcon::Wifi => "\u{f1eb}",
        NetIcon::Disconnected => "\u{f071}",
    }
}

fn append_metric_segment(line: &mut String, glyph: &str, tenths: u32)
    ensures
        final(line)@ == old(line)@ + spec_metric_segment(glyph@, tenths as nat),
{
    line.append("<span font_desc='Font Awesome 6 Free Solid'>");
    line.append(glyph);
    line.append("</span>");
    line.append(" ");
    let field = tenths_field(tenths as u64);
    line.append(field.as_str());
    line.append("%");
}

/// Render the status line for the values of one tick. Formatting is a pure
/// function of the input, so rendering the same values again yields a
/// byte-identical line.
pub fn format_status(inp: &StatusInput) -> (r: String)
    requires
        inp.clock.wf(),
    ensures
        r@ == spec_status_line(*inp),
{
    let mut line = String::new();
    append_metric_segment(&mut line, "\u{f015}", inp.disk_main_tenths);
    line.append(" | ");
    append_metric_segment(&mut line, "\u{f0a0}", inp.disk_other_tenths);
    line.append(" | ");
    append_metric_segment(&mut line, "\u{f538}", inp.mem_tenths);
    line.append(" | ");
    append_metric_segment(&mut line, "\u{f2db}", inp.cpu_tenths);
    line.append(" | ");
    line.append("<span font_desc='Font Awesome 6 Free Solid'>");
    line.append(net_glyph(inp.net_icon));
    line.append("</span>");
    line.append(" | ");
    line.append("<span font_desc='Font Awesome 6 Free Solid'>");
    line.append("\u{f025}");
    line.append("</span>");
    line.append(" ");
    let vol = decimal_string(inp.volume_percent as u64);
    line.append(vol.as_str());
    line.append("% | ");
    line.append("<span font_desc='Font Awesome 6 Free Solid'>");
    line.append("\u{f017}");
    line.append("</span>");
    line.append(" ");
    let clock = format_clock(&inp.clock);
    line.append(clock.as_str());
    proof {
        assert(line@ =~= spec_status_line(*inp));
    }
    line
}

/// Rendering is deterministic: two lines formatted from the same input are
/// equal character for character.
pub proof fn lemma_format_deterministic(inp: StatusInput, r1: Seq<char>, r2: Seq<char>)
    requires
        r1 == spec_status_line(inp),
        r2 == spec_status_line(inp),
    ensures
        r1 == r2,
{
}

} // verus!
