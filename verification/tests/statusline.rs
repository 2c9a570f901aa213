use statusbar::bar::bar_commands;
use statusbar::clock::ClockParts;
use statusbar::formatter::{format_status, StatusInput};
use statusbar::network::{NetIcon, NetInterface};
use statusbar::render::{next_deadline, render_tick, DiskSpace, MemSpace};

const SPAN_OPEN: &str = "<span font_desc='Font Awesome 6 Free Solid'>";
const SPAN_CLOSE: &str = "</span>";

fn segment(glyph: char, field: &str) -> String {
    format!("{}{}{} {}%", SPAN_OPEN, glyph, SPAN_CLOSE, field)
}

fn fixed_clock() -> ClockParts {
    ClockParts { weekday: 0, day: 12, month: 10, hour: 15, minute: 45, second: 9 }
}

#[test]
fn end_to_end_line_matches_expected_segments() {
    let ifaces = vec![NetInterface {
        name: "eth0".to_string(),
        received: 0,
        transmitted: 0,
        is_up: true,
    }];
    let (line, debug) = render_tick(
        Some(DiskSpace { available: 250_000_000_000, total: 500_000_000_000 }),
        Some(DiskSpace { available: 250_000_000_000, total: 500_000_000_000 }),
        Some(MemSpace { used: 4_000_000_000, total: 16_000_000_000 }),
        Some(123),
        &ifaces,
        Some(42),
        fixed_clock(),
    );
    let expected = format!(
        "{} | {} | {} | {} | {}\u{f796}{} | {}\u{f025}{} 42% | {}\u{f017}{} Sun 12 Oct 03:45:09 PM",
        segment('\u{f015}', " 50.0"),
        segment('\u{f0a0}', " 50.0"),
        segment('\u{f538}', " 25.0"),
        segment('\u{f2db}', " 12.3"),
        SPAN_OPEN,
        SPAN_CLOSE,
        SPAN_OPEN,
        SPAN_CLOSE,
        SPAN_OPEN,
        SPAN_CLOSE,
    );
    assert_eq!(line, expected);
    assert_eq!(debug, "eth0(R:0,T:0) ");
}

#[test]
fn formatting_twice_is_byte_identical() {
    let inp = StatusInput {
        disk_main_tenths: 500,
        disk_other_tenths: 123,
        mem_tenths: 250,
        cpu_tenths: 999,
        net_icon: NetIcon::Wifi,
        volume_percent: 100,
        clock: fixed_clock(),
    };
    let first = format_status(&inp);
    let second = format_status(&inp);
    assert_eq!(first.as_bytes(), second.as_bytes());
}

#[test]
fn rendering_twice_with_same_samples_is_identical() {
    let ifaces = vec![NetInterface {
        name: "wlan0".to_string(),
        received: 9,
        transmitted: 9,
        is_up: true,
    }];
    let one = render_tick(
        Some(DiskSpace { available: 1, total: 3 }),
        None,
        Some(MemSpace { used: 2, total: 3 }),
        Some(77),
        &ifaces,
        Some(3),
        fixed_clock(),
    );
    let two = render_tick(
        Some(DiskSpace { available: 1, total: 3 }),
        None,
        Some(MemSpace { used: 2, total: 3 }),
        Some(77),
        &ifaces,
        Some(3),
        fixed_clock(),
    );
    assert_eq!(one, two);
}

#[test]
fn failing_providers_still_yield_a_line_every_tick() {
    let ifaces: Vec<NetInterface> = Vec::new();
    let mut previous: Option<String> = None;
    for _ in 0..500 {
        let (line, debug) = render_tick(None, None, None, None, &ifaces, None, fixed_clock());
        assert!(!line.is_empty());
        assert_eq!(debug, "No active interfaces");
        if let Some(p) = &previous {
            assert_eq!(&line, p);
        }
        previous = Some(line);
    }
    let expected = format!(
        "{} | {} | {} | {} | {}\u{f071}{} | {}\u{f025}{} 0% | {}\u{f017}{} Sun 12 Oct 03:45:09 PM",
        segment('\u{f015}', "  0.0"),
        segment('\u{f0a0}', "  0.0"),
        segment('\u{f538}', "  0.0"),
        segment('\u{f2db}', "  0.0"),
        SPAN_OPEN,
        SPAN_CLOSE,
        SPAN_OPEN,
        SPAN_CLOSE,
        SPAN_OPEN,
        SPAN_CLOSE,
    );
    assert_eq!(previous.unwrap(), expected);
}

#[test]
fn inconsistent_samples_fall_back_to_zero() {
    let ifaces: Vec<NetInterface> = Vec::new();
    let (line, _) = render_tick(
        Some(DiskSpace { available: 10, total: 5 }),
        None,
        Some(MemSpace { used: 9, total: 2 }),
        None,
        &ifaces,
        None,
        fixed_clock(),
    );
    let (fallback, _) = render_tick(None, None, None, None, &ifaces, None, fixed_clock());
    assert_eq!(line, fallback);
}

#[test]
fn bar_registration_commands_in_order() {
    let cmds = bar_commands();
    assert_eq!(cmds.len(), 3);
    assert_eq!(cmds[0], "bar new_bar position top");
    assert_eq!(cmds[1], "bar new_bar status_command ~/.cargo/bin/statusbar --status");
    assert_eq!(cmds[2], "bar new_bar font pango:Berkeley Mono 9, Font Awesome 6 Free Solid 9");
}

#[test]
fn deadlines_are_fixed_rate() {
    assert_eq!(next_deadline(1000, 0, 500), Some(1000));
    assert_eq!(next_deadline(1000, 3, 500), Some(2500));
    assert_eq!(next_deadline(0, 144, 7), Some(1008));
}

#[test]
fn deadline_overflow_is_reported() {
    assert_eq!(next_deadline(u64::MAX, 1, 1), None);
    assert_eq!(next_deadline(0, u64::MAX, u64::MAX), None);
}
