//! The volume side of the engine: the shared cell that bridges the
//! background sampler's schedule and the render loop's schedule, and the
//! sampler's connection state machine.
//!
//! The cell has a single writer (the sampler) and a single reader (the
//! render loop). A sampling failure never resets the cell: the reader keeps
//! observing the last successfully committed value, however stale.

use vstd::prelude::*;

verus! {

/// The latest successfully sampled volume, plus when it was committed.
#[derive(Debug, Clone, Copy, PartialEq, Eq, Structural)]
pub struct SharedMetricState {
    pub volume_percent: u32,
    pub last_updated: u64,
}

impl SharedMetricState {
    /// The cell always holds a percentage.
    pub open spec fn wf(self) -> bool {
        self.volume_percent <= 100
    }

    /// The cell as created at process start: default volume, never updated.
    pub fn new() -> (r: SharedMetricState)
        ensures
            r.volume_percent == 0,
            r.last_updated == 0,
            r.wf(),
    {
        SharedMetricState { volume_percent: 0, last_updated: 0 }
    }

    /// The render loop's read: exactly the most recently committed value.
    pub fn read(&self) -> (r: u32)
        ensures
            r == self.volume_percent,
    {
        self.volume_percent
    }

    /// The sampler's write of a fresh successful observation.
    pub fn commit(&mut self, v: u32, now: u64)
        requires
            v <= 100,
        ensures
            final(self).volume_percent == v,
            final(self).last_updated == now,
            final(self).wf(),
    {
        self.volume_percent = v;
        self.last_updated = now;
    }
}

/// A raw subsystem reading normalized to the 0..=100 percentage range.
pub open spec fn spec_normalize_volume(raw: u32) -> u32 {
    if raw > 100 {
        100u32
    } else {
        raw
    }
}

/// Normalize a raw volume reading to a percentage.
pub fn normalize_volume(raw: u32) -> (r: u32)
    ensures
        r == spec_normalize_volume(raw),
        r <= 100,
{
    if raw > 100 {
        100
    } else {
        raw
    }
}

/// The sampler's connection to the audio subsystem.
#[derive(Debug, Clone, Copy, PartialEq, Eq, Structural)]
pub enum ConnState {
    Disconnected,
    Connecting,
    Ready,
    Failed,
}

/// What one sampling attempt reported back.
#[derive(Debug, Clone, Copy, PartialEq, Eq, Structural)]
pub enum VolumeEvent {
    BeginConnect,
    ConnectOk,
    ConnectErr,
    QueryOk(u32),
    QueryErr,
}

/// The connection state after `e` arrives in state `s`. An event that does
/// not apply to the current state leaves it unchanged; failure states are
/// recoverable through `BeginConnect` on the next scheduled attempt.
pub open spec fn spec_conn_next(s: ConnState, e: VolumeEvent) -> ConnState {
    match (s, e) {
        (ConnState::Disconnected, VolumeEvent::BeginConnect) => ConnState::Connecting,
        (ConnState::Failed, VolumeEvent::BeginConnect) => ConnState::Connecting,
        (ConnState::Connecting, VolumeEvent::ConnectOk) => ConnState::Ready,
        (ConnState::Connecting, VolumeEvent::ConnectErr) => ConnState::Failed,
        (ConnState::Ready, VolumeEvent::QueryOk(_)) => ConnState::Ready,
        (ConnState::Ready, VolumeEvent::QueryErr) => ConnState::Failed,
        _ => s,
    }
}

/// The value a step commits to the shared cell: only a successful query in
/// the ready state commits, and it commits the normalized reading.
pub open spec fn spec_step_commit(s: ConnState, e: VolumeEvent) -> Option<u32> {
    match (s, e) {
        (ConnState::Ready, VolumeEvent::QueryOk(raw)) => Some(spec_normalize_volume(raw)),
        _ => None,
    }
}

/// The sampler loop's whole visible state: connection plus shared cell.
#[derive(Debug, Clone, Copy, PartialEq, Eq, Structural)]
pub struct VolumeMonitor {
    pub conn: ConnState,
    pub shared: SharedMetricState,
}

/// One step of the monitor, as a function of state, event and clock.
pub open spec fn spec_monitor_step(m: VolumeMonitor, e: VolumeEvent, now: u64) -> VolumeMonitor {
    VolumeMonitor {
        conn: spec_conn_next(m.conn, e),
        shared: match spec_step_commit(m.conn, e) {
            Some(v) => SharedMetricState { volume_percent: v, last_updated: now },
            None => m.shared,
        },
    }
}

impl VolumeMonitor {
    /// The monitor as created at process start.
    pub fn new() -> (r: VolumeMonitor)
        ensures
            r.conn == ConnState::Disconnected,
            r.shared.volume_percent == 0,
            r.shared.last_updated == 0,
            r.shared.wf(),
    {
        VolumeMonitor { conn: ConnState::Disconnected, shared: SharedMetricState::new() }
    }

    /// Apply one sampling event. Exactly a successful query in the ready
    /// state overwrites the shared cell; every failure leaves the previous
    /// value untouched, so the sampler never terminates the process and the
    /// reader keeps a usable value.
    pub fn step(&mut self, e: VolumeEvent, now: u64)
        requires
            old(self).shared.wf(),
        ensures
            *final(self) == spec_monitor_step(*old(self), e, now),
            final(self).shared.wf(),
    {
        let next = match (self.conn, e) {
            (ConnState::Disconnected, VolumeEvent::BeginConnect) => ConnState::Connecting,
            (ConnState::Failed, VolumeEvent::BeginConnect) => ConnState::Connecting,
            (ConnState::Connecting, VolumeEvent::ConnectOk) => ConnState::Ready,
            (ConnState::Connecting, VolumeEvent::ConnectErr) => ConnState::Failed,
            (ConnState::Ready, VolumeEvent::QueryOk(_)) => ConnState::Ready,
            (ConnState::Ready, VolumeEvent::QueryErr) => ConnState::Failed,
            (s, _) => s,
        };
        if let (ConnState::Ready, VolumeEvent::QueryOk(raw)) = (self.conn, e) {
            let v = normalize_volume(raw);
            self.shared.commit(v, now);
        }
        self.conn = next;
    }
}

/// The monitor after a whole sequence of events, with `now(k)` the clock at
/// the `k`-th step.
pub open spec fn spec_monitor_run(
    m: VolumeMonitor,
    es: Seq<VolumeEvent>,
    now: spec_fn(int) -> u64,
) -> VolumeMonitor
    decreases es.len(),
{
    if es.len() == 0 {
        m
    } else {
        spec_monitor_run(
            spec_monitor_step(m, es[0], now(0)),
            es.drop_first(),
            |k: int| now(k + 1),
        )
    }
}

/// Staleness tolerance of the shared cell: across any run of consecutive
/// failed or connection-management events — anything but a successful
/// query — the shared cell is exactly what it was before the run began, so
/// a concurrent reader still observes the last committed value.
pub proof fn lemma_failures_preserve_shared(
    m: VolumeMonitor,
    es: Seq<VolumeEvent>,
    now: spec_fn(int) -> u64,
)
    requires
        forall|k: int| 0 <= k < es.len() ==> !(#[trigger] es[k] is QueryOk),
    ensures
        spec_monitor_run(m, es, now).shared == m.shared,
    decreases es.len(),
{
    if es.len() > 0 {
        let m1 = spec_monitor_step(m, es[0], now(0));
        assert(spec_step_commit(m.conn, es[0]) is None);
        assert(m1.shared == m.shared);
        assert(forall|k: int|
            0 <= k < es.drop_first().len() ==> !(#[trigger] es.drop_first()[k] is QueryOk));
        lemma_failures_preserve_shared(m1, es.drop_first(), |k: int| now(k + 1));
    }
}

} // verus!
