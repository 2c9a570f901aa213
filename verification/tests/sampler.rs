use statusbar::clock::{format_clock, ClockParts};
use statusbar::volume::{ConnState, SharedMetricState, VolumeEvent, VolumeMonitor};

#[test]
fn shared_state_starts_at_default() {
    let s = SharedMetricState::new();
    assert_eq!(s.read(), 0);
    assert_eq!(s.last_updated, 0);
}

#[test]
fn monitor_connects_and_commits() {
    let mut m = VolumeMonitor::new();
    assert_eq!(m.conn, ConnState::Disconnected);
    m.step(VolumeEvent::BeginConnect, 1);
    assert_eq!(m.conn, ConnState::Connecting);
    m.step(VolumeEvent::ConnectOk, 2);
    assert_eq!(m.conn, ConnState::Ready);
    m.step(VolumeEvent::QueryOk(42), 3);
    assert_eq!(m.conn, ConnState::Ready);
    assert_eq!(m.shared.read(), 42);
    assert_eq!(m.shared.last_updated, 3);
}

#[test]
fn monitor_clamps_overdriven_volume() {
    let mut m = VolumeMonitor::new();
    m.step(VolumeEvent::BeginConnect, 1);
    m.step(VolumeEvent::ConnectOk, 2);
    m.step(VolumeEvent::QueryOk(150), 3);
    assert_eq!(m.shared.read(), 100);
}

#[test]
fn failures_keep_last_committed_value() {
    let mut m = VolumeMonitor::new();
    m.step(VolumeEvent::BeginConnect, 1);
    m.step(VolumeEvent::ConnectOk, 2);
    m.step(VolumeEvent::QueryOk(42), 3);
    // a long run of failures and reconnection attempts
    m.step(VolumeEvent::QueryErr, 4);
    assert_eq!(m.conn, ConnState::Failed);
    for k in 0..50u64 {
        m.step(VolumeEvent::BeginConnect, 5 + k);
        m.step(VolumeEvent::ConnectErr, 6 + k);
    }
    // the reader still observes the last committed value, never zero
    assert_eq!(m.shared.read(), 42);
    assert_eq!(m.shared.last_updated, 3);
}

#[test]
fn query_without_connection_commits_nothing() {
    let mut m = VolumeMonitor::new();
    m.step(VolumeEvent::QueryOk(80), 9);
    assert_eq!(m.conn, ConnState::Disconnected);
    assert_eq!(m.shared.read(), 0);
}

#[test]
fn connect_failure_is_recoverable() {
    let mut m = VolumeMonitor::new();
    m.step(VolumeEvent::BeginConnect, 1);
    m.step(VolumeEvent::ConnectErr, 2);
    assert_eq!(m.conn, ConnState::Failed);
    m.step(VolumeEvent::BeginConnect, 3);
    m.step(VolumeEvent::ConnectOk, 4);
    assert_eq!(m.conn, ConnState::Ready);
    m.step(VolumeEvent::QueryOk(7), 5);
    assert_eq!(m.shared.read(), 7);
}

#[test]
fn clock_renders_fixed_pattern() {
    let p = ClockParts { weekday: 0, day: 12, month: 10, hour: 15, minute: 45, second: 9 };
    assert_eq!(format_clock(&p), "Sun 12 Oct 03:45:09 PM");
}

#[test]
fn clock_midnight_is_twelve_am() {
    let p = ClockParts { weekday: 1, day: 1, month: 1, hour: 0, minute: 0, second: 0 };
    assert_eq!(format_clock(&p), "Mon 01 Jan 12:00:00 AM");
}

#[test]
fn clock_noon_is_twelve_pm() {
    let p = ClockParts { weekday: 6, day: 31, month: 12, hour: 12, minute: 59, second: 59 };
    assert_eq!(format_clock(&p), "Sat 31 Dec 12:59:59 PM");
}

#[test]
fn clock_morning_hours() {
    let p = ClockParts { weekday: 4, day: 5, month: 6, hour: 9, minute: 7, second: 30 };
    assert_eq!(format_clock(&p), "Thu 05 Jun 09:07:30 AM");
}
