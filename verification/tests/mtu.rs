use eoip_rs::addr::IpAddr;
use eoip_rs::net::mtu::{
    after_bound_device, after_index, after_index_name, auto_overlay_mtu, clamp_mtu,
    detect_interface_mtu, interface_index, interface_name, overlay_mtu, parse_sys_mtu,
    sockaddr_to_ip, sys_mtu_path, InterfaceAddr, MtuStep, DEFAULT_OVERLAY_MTU, EOIP_OVERHEAD,
    IPSEC_ESP_OVERHEAD, MIN_OVERLAY_MTU,
};

#[test]
fn auto_overlay_mtu_standard() {
    // With a 1500-byte path, overlay should be 1458.
    assert_eq!(1500u16.saturating_sub(EOIP_OVERHEAD), 1458);
    assert_eq!(auto_overlay_mtu(Some(1500)), 1458);
}

#[test]
fn auto_overlay_mtu_wireguard() {
    // WireGuard typically has 1420 MTU.
    assert_eq!(1420u16.saturating_sub(EOIP_OVERHEAD), 1378);
    assert_eq!(auto_overlay_mtu(Some(1420)), 1378);
}

#[test]
fn auto_overlay_mtu_minimum_clamp() {
    // Extremely small path MTU should clamp to minimum.
    let overlay = 100u16.saturating_sub(EOIP_OVERHEAD).max(MIN_OVERLAY_MTU);
    assert_eq!(overlay, MIN_OVERLAY_MTU);
    assert_eq!(overlay_mtu(100), MIN_OVERLAY_MTU);
}

#[test]
fn detection_failure_takes_the_default() {
    assert_eq!(detect_interface_mtu(None), 1500);
    assert_eq!(detect_interface_mtu(Some(9000)), 9000);
    assert_eq!(auto_overlay_mtu(None), DEFAULT_OVERLAY_MTU);
    assert_eq!(IPSEC_ESP_OVERHEAD, 38);
    assert_eq!(overlay_mtu(0), 534);
    assert_eq!(overlay_mtu(576), 534);
    assert_eq!(overlay_mtu(577), 535);
    assert_eq!(overlay_mtu(65535), 65493);
}

#[test]
fn sys_mtu_files() {
    assert_eq!(sys_mtu_path("eth0"), "/sys/class/net/eth0/mtu");
    assert_eq!(parse_sys_mtu("1500\n"), Some(1500));
    assert_eq!(parse_sys_mtu(" \t+0042\u{3000}\n"), Some(42));
    assert_eq!(parse_sys_mtu("65535"), Some(65535));
    assert_eq!(parse_sys_mtu("65536"), None);
    assert_eq!(parse_sys_mtu("99999999999999999999"), None);
    assert_eq!(parse_sys_mtu(""), None);
    assert_eq!(parse_sys_mtu("+"), None);
    assert_eq!(parse_sys_mtu("-1"), None);
    assert_eq!(parse_sys_mtu("++1"), None);
    assert_eq!(parse_sys_mtu("15 00"), None);
    assert_eq!(parse_sys_mtu("1500x"), None);
}

#[test]
fn sys_mtu_parsing_agrees_with_std() {
    let texts = [
        "1500\n", "0", "00", "+5", "-0", "", " ", "\u{85}7\u{a0}", "7\u{200b}", "\u{2028}8", "1_0",
        "65535", "65536", "0x10", "\u{feff}1", "٣",
    ];
    for text in texts {
        assert_eq!(parse_sys_mtu(text), text.trim().parse::<u16>().ok(), "{text:?}");
    }
}

#[test]
fn interface_names() {
    assert_eq!(interface_name(b"eth0\0junk"), "eth0");
    assert_eq!(interface_name(b"\0"), "");
    assert_eq!(interface_name(b"eth0"), "");
    assert_eq!(interface_name(b""), "");
    assert_eq!(interface_name(b"a\xffb\0"), "a\u{fffd}b");
}

#[test]
fn detection_steps() {
    assert!(matches!(after_bound_device(Some(b"eth0\0")), MtuStep::ReadMtuOf(n) if n == "eth0"));
    assert!(matches!(after_bound_device(Some(b"\0")), MtuStep::FindIndex));
    assert!(matches!(after_bound_device(Some(b"\0\0")), MtuStep::FindIndex));
    assert!(matches!(after_bound_device(None), MtuStep::FindIndex));
    assert!(matches!(after_index(3), MtuStep::FindName(3)));
    assert!(matches!(after_index(0), MtuStep::UseDefault));
    assert!(matches!(after_index_name(Some(b"lo\0\0")), MtuStep::ReadMtuOf(n) if n == "lo"));
    assert!(matches!(after_index_name(Some(b"\0")), MtuStep::UseDefault));
    assert!(matches!(after_index_name(None), MtuStep::UseDefault));
}

#[test]
fn interface_by_source_address() {
    let a = IpAddr::from_v4_octets(10, 0, 0, 1);
    let b = IpAddr::from_v4_octets(10, 0, 0, 2);
    let c = IpAddr::from_v4_octets(10, 0, 0, 3);
    let interfaces = vec![
        InterfaceAddr { addr: None, index: Some(1) },
        InterfaceAddr { addr: Some(a), index: Some(2) },
        InterfaceAddr { addr: Some(b), index: None },
        InterfaceAddr { addr: Some(a), index: Some(4) },
        InterfaceAddr { addr: Some(b), index: Some(5) },
    ];
    assert_eq!(interface_index(&interfaces, Some(a)), 2);
    assert_eq!(interface_index(&interfaces, Some(b)), 0);
    assert_eq!(interface_index(&interfaces, Some(c)), 0);
    assert_eq!(interface_index(&interfaces, None), 0);
}

#[test]
fn socket_addresses() {
    let v4 = [192, 168, 1, 2];
    let v6 = [0, 0, 0, 0, 0, 0, 0, 0, 0, 0, 0, 0, 0, 0, 0, 1];
    assert_eq!(sockaddr_to_ip(2, &v4, &v6), Some(IpAddr::V4(0xc0a80102)));
    assert_eq!(sockaddr_to_ip(10, &v4, &v6), Some(IpAddr::V6(1)));
    assert_eq!(sockaddr_to_ip(17, &v4, &v6), None);
    assert_eq!(clamp_mtu(65536), 65535);
    assert_eq!(clamp_mtu(1500), 1500);
}
