use statusbar::network::{classify_network, NetIcon, NetInterface};

fn iface(name: &str, received: u64, transmitted: u64, is_up: bool) -> NetInterface {
    NetInterface { name: name.to_string(), received, transmitted, is_up }
}

#[test]
fn ethernet_wins_over_wifi() {
    let ifaces = vec![iface("wlan0", 1, 2, true), iface("eth0", 3, 4, true)];
    let (icon, _) = classify_network(&ifaces);
    assert_eq!(icon, NetIcon::Ethernet);
}

#[test]
fn wifi_when_no_ethernet_active() {
    let ifaces = vec![iface("wlp3s0", 10, 20, true), iface("eth0", 3, 4, false)];
    let (icon, _) = classify_network(&ifaces);
    assert_eq!(icon, NetIcon::Wifi);
}

#[test]
fn disconnected_when_nothing_up() {
    let ifaces = vec![iface("eth0", 1, 2, false), iface("wlan0", 3, 4, false)];
    let (icon, debug) = classify_network(&ifaces);
    assert_eq!(icon, NetIcon::Disconnected);
    assert_eq!(debug, "No active interfaces");
}

#[test]
fn disconnected_for_empty_set() {
    let ifaces: Vec<NetInterface> = Vec::new();
    let (icon, debug) = classify_network(&ifaces);
    assert_eq!(icon, NetIcon::Disconnected);
    assert_eq!(debug, "No active interfaces");
}

#[test]
fn active_loopback_is_neither_class() {
    let ifaces = vec![iface("lo", 7, 7, true)];
    let (icon, debug) = classify_network(&ifaces);
    assert_eq!(icon, NetIcon::Disconnected);
    assert_eq!(debug, "lo(R:7,T:7) ");
}

#[test]
fn debug_lists_active_interfaces_with_counters() {
    let ifaces = vec![
        iface("eth0", 100, 200, true),
        iface("wlan0", 5, 6, false),
        iface("wlan1", 7, 8, true),
    ];
    let (icon, debug) = classify_network(&ifaces);
    assert_eq!(icon, NetIcon::Ethernet);
    assert_eq!(debug, "eth0(R:100,T:200) wlan1(R:7,T:8) ");
}

#[test]
fn down_interface_name_does_not_classify() {
    let ifaces = vec![iface("eth0", 1, 1, false), iface("lo", 2, 2, true)];
    let (icon, _) = classify_network(&ifaces);
    assert_eq!(icon, NetIcon::Disconnected);
}
