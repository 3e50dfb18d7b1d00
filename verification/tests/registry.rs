use eoip_rs::addr::{DemuxKey, IpAddr};
use eoip_rs::config::TunnelConfig;
use eoip_rs::tunnel::handle::{TunnelHandle, RX_CHANNEL_CAP};
use eoip_rs::tunnel::lifecycle::TunnelState;
use eoip_rs::tunnel::registry::TunnelRegistry;

fn make_key(tid: u16, last_octet: u8) -> DemuxKey {
    DemuxKey {
        tunnel_id: tid,
        peer_addr: IpAddr::from_v4_octets(10, 0, 0, last_octet),
    }
}

fn make_handle(tid: u16) -> TunnelHandle {
    TunnelHandle::new(TunnelConfig {
        tunnel_id: tid,
        local: IpAddr::from_v4_octets(10, 0, 0, 1),
        remote: IpAddr::from_v4_octets(10, 0, 0, 2),
        iface_name: None,
        mtu: 1500,
        enabled: true,
        keepalive_interval_secs: 10,
        keepalive_timeout_secs: 30,
    })
}

#[test]
fn insert_and_get() {
    let mut reg = TunnelRegistry::new();
    let key = make_key(100, 1);
    reg.insert(key, make_handle(100));
    assert!(reg.get(&key).is_some());
    assert_eq!(reg.len(), 1);
}

#[test]
fn insert_duplicate_returns_old() {
    let mut reg = TunnelRegistry::new();
    let key = make_key(100, 1);
    assert!(reg.insert(key, make_handle(100)).is_none());
    assert!(reg.insert(key, make_handle(100)).is_some());
    assert_eq!(reg.len(), 1);
}

#[test]
fn remove() {
    let mut reg = TunnelRegistry::new();
    let key = make_key(100, 1);
    reg.insert(key, make_handle(100));
    assert!(reg.remove(&key).is_some());
    assert!(reg.get(&key).is_none());
    assert!(reg.is_empty());
}

#[test]
fn find_by_tunnel_id() {
    let mut reg = TunnelRegistry::new();
    // Same tunnel ID, different peers
    reg.insert(make_key(42, 1), make_handle(42));
    reg.insert(make_key(42, 2), make_handle(42));
    reg.insert(make_key(99, 3), make_handle(99));

    let results = reg.find_by_tunnel_id(42);
    assert_eq!(results.len(), 2);

    let results = reg.find_by_tunnel_id(99);
    assert_eq!(results.len(), 1);

    let results = reg.find_by_tunnel_id(0);
    assert_eq!(results.len(), 0);
}

#[test]
fn iter_all() {
    let mut reg = TunnelRegistry::new();
    for i in 0..100u16 {
        reg.insert(make_key(i, (i % 255) as u8 + 1), make_handle(i));
    }
    assert_eq!(reg.iter().len(), 100);
}

#[test]
fn registry_keeps_handles_apart() {
    let mut reg = TunnelRegistry::default();
    assert!(reg.is_empty());
    let v4 = DemuxKey { tunnel_id: 7, peer_addr: IpAddr::V4(1) };
    let v6 = DemuxKey { tunnel_id: 7, peer_addr: IpAddr::V6(1) };
    let mut handle = make_handle(7);
    handle.actual_mtu = 1400;
    reg.insert(v4, handle);
    reg.insert(v6, make_handle(7));
    assert!(!reg.is_empty());
    assert_eq!(reg.len(), 2);
    assert_eq!(reg.get(&v4).unwrap().actual_mtu, 1400);
    assert_eq!(reg.get(&v6).unwrap().actual_mtu, 0);

    let guard = reg.get_ref(&v4).unwrap();
    assert_eq!(guard.value().actual_mtu, 1400);
    assert_eq!(guard.key(), &v4.code());
    drop(guard);

    let (key, removed) = reg.remove(&v4).unwrap();
    assert_eq!(key, v4);
    assert_eq!(removed.actual_mtu, 1400);
    assert!(reg.get_ref(&v4).is_none());
    assert!(reg.remove(&v4).is_none());
    assert_eq!(reg.find_by_tunnel_id(7).len(), 1);
    assert_eq!(reg.find_by_tunnel_id(7)[0].0, v6);
    assert_eq!(reg.iter()[0].0, v6);
}

#[test]
fn new_handle_is_initializing() {
    let handle = make_handle(5);
    let snapshot = handle.snapshot();
    assert_eq!(snapshot.state, TunnelState::Initializing);
    assert_eq!(snapshot.config.tunnel_id, 5);
    assert_eq!(snapshot.stats.rx_packets, 0);
    assert_eq!(snapshot.stats.last_rx_timestamp, 0);
    assert_eq!(snapshot.actual_mtu, 0);
    assert_eq!(handle.rx_channel.as_ref().unwrap().capacity(), Some(RX_CHANNEL_CAP));
    assert!(handle.rx_receiver.is_some());
    let small = TunnelHandle::with_channel_cap(make_handle(6).config, 3);
    assert_eq!(small.rx_channel.as_ref().unwrap().capacity(), Some(3));
}

#[test]
fn handle_activation_and_teardown() {
    let mut handle = make_handle(5);
    handle.activate();
    assert_eq!(handle.state.load(), TunnelState::Active);
    handle.activate();
    assert_eq!(handle.state.load(), TunnelState::Active);
    handle.tear_down();
    assert_eq!(handle.state.load(), TunnelState::TearingDown);
    handle.activate();
    assert_eq!(handle.state.load(), TunnelState::TearingDown);
}

#[test]
fn key_codes_round_trip() {
    let key = make_key(65535, 9);
    assert_eq!(key.code(), (65535, 4, 0x0a000009));
    assert_eq!(DemuxKey::from_code(key.code()), key);
    let octets = [0xfd, 0, 0, 0, 0, 0, 0, 0, 0, 0, 0, 0, 0, 0, 0, 2];
    let addr = IpAddr::from_v6_octets(&octets);
    assert_eq!(addr, IpAddr::V6(0xfd00_0000_0000_0000_0000_0000_0000_0002));
    let all = [0xffu8; 16];
    assert_eq!(IpAddr::from_v6_octets(&all), IpAddr::V6(u128::MAX));
    assert_eq!(IpAddr::from_v4_octets(255, 255, 255, 255), IpAddr::V4(u32::MAX));
    let v6 = DemuxKey { tunnel_id: 1, peer_addr: addr };
    assert_eq!(DemuxKey::from_code(v6.code()), v6);
    assert!(addr.is_ipv6() && !addr.is_ipv4());
}
