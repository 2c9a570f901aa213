//! One tick of the render loop: compose the current OS samples, the link
//! classification, the shared volume reading and the clock into the
//! emitted line.
//!
//! Composition is total: a metric whose provider failed this tick renders
//! its fallback value instead of being omitted, so the line keeps its
//! layout and the loop keeps emitting whatever fails around it.

use vstd::prelude::*;
use crate::clock::ClockParts;
use crate::formatter::StatusInput;
use crate::formatter::spec_status_line;
use crate::formatter::format_status;
use crate::metrics::spec_usage_tenths;
use crate::metrics::disk_usage_tenths;
use crate::metrics::mem_usage_tenths;
use crate::network::NetInterface;
use crate::network::NetIcon;
use crate::network::spec_classify;
use crate::network::spec_net_debug;
use crate::network::classify_network;

verus! {

/// One mount point's free and total bytes, as the OS reported them.
#[derive(Debug, Clone, Copy, PartialEq, Eq, Structural)]
pub struct DiskSpace {
    pub available: u64,
    pub total: u64,
}

/// Used and total memory bytes, as the OS reported them.
#[derive(Debug, Clone, Copy, PartialEq, Eq, Structural)]
pub struct MemSpace {
    pub used: u64,
    pub total: u64,
}

/// The usage a disk sample yields: its rounded percentage in tenths, or
/// the zero fallback when the sample is missing or inconsistent.
pub open spec fn spec_disk_tenths(d: Option<DiskSpace>) -> u32 {
    match d {
        Some(ds) => if ds.available <= ds.total {
            spec_usage_tenths(ds.total - ds.available, ds.total as int) as u32
        } else {
            0u32
        },
        None => 0u32,
    }
}

/// The usage a memory sample yields, with the same fallback.
pub open spec fn spec_mem_tenths(m: Option<MemSpace>) -> u32 {
    match m {
        Some(ms) => if ms.used <= ms.total {
            spec_usage_tenths(ms.used as int, ms.total as int) as u32
        } else {
            0u32
        },
        None => 0u32,
    }
}

/// The formatter input one tick composes: failed samples become their
/// fallbacks, the interface set decides the link icon, and the shared
/// cell's reading (zero when unreadable) becomes the volume field.
pub open spec fn spec_tick_input(
    disk_main: Option<DiskSpace>,
    disk_other: Option<DiskSpace>,
    mem: Option<MemSpace>,
    cpu_tenths: Option<u32>,
    ifaces: Seq<NetInterface>,
    volume: Option<u32>,
    clock: ClockParts,
) -> StatusInput {
    StatusInput {
        disk_main_tenths: spec_disk_tenths(disk_main),
        disk_other_tenths: spec_disk_tenths(disk_other),
        mem_tenths: spec_mem_tenths(mem),
        cpu_tenths: match cpu_tenths {
            Some(c) => c,
            None => 0u32,
        },
        net_icon: spec_classify(ifaces),
        volume_percent: match volume {
            Some(v) => v,
            None => 0u32,
        },
        clock,
    }
}

fn disk_tenths(d: Option<DiskSpace>) -> (r: u32)
    ensures
        r == spec_disk_tenths(d),
{
    match d {
        Some(ds) => if ds.available <= ds.total {
            disk_usage_tenths(ds.available, ds.total)
        } else {
            0
        },
        None => 0,
    }
}

fn mem_tenths(m: Option<MemSpace>) -> (r: u32)
    ensures
        r == spec_mem_tenths(m),
{
    match m {
        Some(ms) => if ms.used <= ms.total {
            mem_usage_tenths(ms.used, ms.total)
        } else {
            0
        },
        None => 0,
    }
}

/// Compose and render one tick. Total in every sample: whatever subset of
/// providers failed (`None`), the tick still yields the full line over the
/// fallback values, together with the network diagnostic text.
pub fn render_tick(
    disk_main: Option<DiskSpace>,
    disk_other: Option<DiskSpace>,
    mem: Option<MemSpace>,
    cpu_tenths: Option<u32>,
    ifaces: &Vec<NetInterface>,
    volume: Option<u32>,
    clock: ClockParts,
) -> (r: (String, String))
    requires
        clock.wf(),
    ensures
        r.0@ == spec_status_line(
            spec_tick_input(disk_main, disk_other, mem, cpu_tenths, ifaces@, volume, clock),
        ),
        r.1@ == spec_net_debug(ifaces@),
{
    let (icon, debug) = classify_network(ifaces);
    let inp = StatusInput {
        disk_main_tenths: disk_tenths(disk_main),
        disk_other_tenths: disk_tenths(disk_other),
        mem_tenths: mem_tenths(mem),
        cpu_tenths: match cpu_tenths {
            Some(c) => c,
            None => 0,
        },
        net_icon: icon,
        volume_percent: match volume {
            Some(v) => v,
            None => 0,
        },
        clock,
    };
    let line = format_status(&inp);
    (line, debug)
}

/// Even with every provider failing, the tick's composed input is exactly
/// the all-fallback input, so by `format_status`'s contract the loop still
/// has a full, stable-layout line to emit and no reason to stop.
pub proof fn lemma_tick_survives_total_failure(ifaces: Seq<NetInterface>, clock: ClockParts)
    ensures
        spec_tick_input(None, None, None, None, ifaces, None, clock) == (StatusInput {
            disk_main_tenths: 0u32,
            disk_other_tenths: 0u32,
            mem_tenths: 0u32,
            cpu_tenths: 0u32,
            net_icon: spec_classify(ifaces),
            volume_percent: 0u32,
            clock,
        }),
{
}

/// The loop never skips or catches up: the `k`-th tick is due at
/// `start + k * interval`, whenever that instant fits the clock's range.
pub fn next_deadline(start_ms: u64, k: u64, interval_ms: u64) -> (r: Option<u64>)
    ensures
        match r {
            Some(d) => d == start_ms + k * interval_ms,
            None => start_ms + k * interval_ms > u64::MAX,
        },
{
    proof {
        assert((k as int) * (interval_ms as int) <= (u64::MAX as int) * (u64::MAX as int))
            by (nonlinear_arith)
            requires
                k <= u64::MAX,
                interval_ms <= u64::MAX,
        ;
        assert((u64::MAX as int) * (u64::MAX as int) + (u64::MAX as int) <= u128::MAX as int);
    }
    let total = (k as u128) * (interval_ms as u128) + (start_ms as u128);
    if total <= u64::MAX as u128 {
        Some(total as u64)
    } else {
        None
    }
}

} // verus!
