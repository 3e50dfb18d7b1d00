use eoip_rs::addr::{DemuxKey, IpAddr};
use eoip_rs::api::{
    get_global_stats, get_stats, get_tunnel, list_tunnels, request_tunnel_id,
    tunnel_config_from_request, ApiError, CreateTunnelRequest, GlobalStats,
};
use eoip_rs::config::TunnelConfig;
use eoip_rs::keepalive::{check_keepalive, check_tunnel, KeepaliveChange};
use eoip_rs::net::pmtud::finish_discovery;
use eoip_rs::net::tap_windows::{
    adapter_matches, device_path, is_tap_component, media_status_retries, mtu_argument,
};
use eoip_rs::packet::buffer::PacketBuf;
use eoip_rs::packet::tx::{accept_tunnel_frame, TxDecision, TxHeader};
use eoip_rs::startup::{
    check_helper_ready, check_startup_tap, is_raw_v4, is_raw_v6, pool_size, raw_fd_or_none,
    register_configured, take_raw_sockets,
};
use eoip_rs::tunnel::handle::TunnelHandle;
use eoip_rs::tunnel::lifecycle::TunnelState;
use eoip_rs::tunnel::manager::{
    check_tap_reply, drain_continues, HelperReply, ManagerError, TunnelManager,
};
use eoip_rs::tunnel::registry::TunnelRegistry;

fn config(tunnel_id: u16, last_octet: u8) -> TunnelConfig {
    TunnelConfig {
        tunnel_id,
        local: IpAddr::from_v4_octets(10, 0, 0, 1),
        remote: IpAddr::from_v4_octets(10, 0, 0, last_octet),
        iface_name: None,
        mtu: 1458,
        enabled: true,
        keepalive_interval_secs: 10,
        keepalive_timeout_secs: 100,
    }
}

fn active_handle() -> TunnelHandle {
    let mut handle = TunnelHandle::new(config(1, 2));
    handle.activate();
    handle
}

#[test]
fn silent_tunnel_goes_stale_and_recovers() {
    let mut handle = active_handle();
    // Nothing was received yet: never stale.
    assert_eq!(check_keepalive(&mut handle, 1_000_000_000), KeepaliveChange::Unchanged);
    handle.stats.record_rx(0, 1_000);
    assert_eq!(check_keepalive(&mut handle, 101_000), KeepaliveChange::Unchanged);
    assert_eq!(handle.state.load(), TunnelState::Active);
    assert_eq!(
        check_keepalive(&mut handle, 101_001),
        KeepaliveChange::WentStale { elapsed_secs: 100 }
    );
    assert_eq!(handle.state.load(), TunnelState::Stale);
    assert_eq!(check_keepalive(&mut handle, 101_001), KeepaliveChange::Unchanged);
    handle.stats.record_rx(0, 150_000);
    assert_eq!(check_keepalive(&mut handle, 150_500), KeepaliveChange::Recovered);
    assert_eq!(handle.state.load(), TunnelState::Active);
}

#[test]
fn keepalive_check_with_odd_clocks() {
    let mut handle = active_handle();
    handle.stats.last_rx_timestamp = i64::MAX;
    assert_eq!(check_keepalive(&mut handle, i64::MIN), KeepaliveChange::Unchanged);
    handle.stats.last_rx_timestamp = 1;
    handle.config.keepalive_timeout_secs = u64::MAX;
    assert_eq!(check_keepalive(&mut handle, i64::MAX), KeepaliveChange::Unchanged);
    handle.config.keepalive_timeout_secs = 0;
    assert_eq!(check_keepalive(&mut handle, 1), KeepaliveChange::Unchanged);
    assert_eq!(
        check_keepalive(&mut handle, 2),
        KeepaliveChange::WentStale { elapsed_secs: 0 }
    );
    let mut tearing = active_handle();
    tearing.stats.last_rx_timestamp = 1;
    tearing.tear_down();
    assert_eq!(check_keepalive(&mut tearing, i64::MAX), KeepaliveChange::Unchanged);
    assert_eq!(tearing.state.load(), TunnelState::TearingDown);
}

#[test]
fn creating_and_destroying_a_tunnel() {
    let mut manager: TunnelManager<&str> = TunnelManager::new(TunnelRegistry::new());
    let request = manager.begin_create(config(100, 2)).unwrap();
    assert_eq!(request.iface_name, "eoip100");
    assert_eq!(request.key.tunnel_id, 100);
    let state = |m: &TunnelManager<&str>, key: &DemuxKey| m.registry().get(key).unwrap().state;
    assert_eq!(state(&manager, &request.key), TunnelState::Initializing);
    manager.tap_replied(&request.key, HelperReply::TapCreated, true, "").unwrap();
    assert_eq!(manager.finish_create(&request.key, "task"), None);
    assert_eq!(state(&manager, &request.key), TunnelState::Active);

    let error = manager.begin_create(config(100, 9)).unwrap_err();
    assert_eq!(error.message(), "tunnel 100 already exists");
    assert_eq!(manager.registry().len(), 1);

    manager.begin_create(config(7, 9)).unwrap();
    let (task, removed) = manager.destroy_tunnel(100);
    assert_eq!(task, Some("task"));
    let removed = removed.unwrap();
    assert_eq!(removed.len(), 1);
    assert_eq!(removed[0].0, request.key);
    assert_eq!(removed[0].1.state.load(), TunnelState::TearingDown);
    assert_eq!(manager.registry().len(), 1);

    let (task, removed) = manager.destroy_tunnel(100);
    assert_eq!(task, None);
    assert_eq!(removed.unwrap_err().message(), "tunnel 100 not found");
    assert!(manager.begin_create(config(100, 2)).is_ok());
}

#[test]
fn failed_creation_leaves_no_trace() {
    for (reply, fd, text) in [
        (HelperReply::Error { msg: "no device".into() }, true, "helper error: no device"),
        (HelperReply::HelperReady, true, "unexpected: HelperReady"),
        (HelperReply::RawSocket { address_family: 2 }, false, "unexpected: HelperReady"),
        (HelperReply::TapCreated, false, "no TAP fd received"),
    ] {
        let mut manager: TunnelManager<()> = TunnelManager::new(TunnelRegistry::new());
        let request = manager.begin_create(config(100, 2)).unwrap();
        let error = manager.tap_replied(&request.key, reply, fd, "HelperReady").unwrap_err();
        assert_eq!(error.message(), text);
        assert!(manager.registry().is_empty());
    }
}

#[test]
fn destroying_takes_every_peer_of_an_id() {
    let mut registry = TunnelRegistry::new();
    for last in 1..=5u8 {
        let config = config(42, last);
        let key = DemuxKey { tunnel_id: 42, peer_addr: config.remote };
        registry.insert(key, TunnelHandle::new(config));
    }
    let other = DemuxKey { tunnel_id: 43, peer_addr: IpAddr::V4(1) };
    registry.insert(other, TunnelHandle::new(config(43, 1)));
    let mut manager: TunnelManager<u8> = TunnelManager::new(registry);
    assert_eq!(manager.register_startup_tunnel(42, 1), None);
    assert_eq!(manager.register_startup_tunnel(42, 2), Some(1));
    let (task, removed) = manager.destroy_tunnel(42);
    assert_eq!(task, Some(2));
    assert_eq!(removed.unwrap().len(), 5);
    assert_eq!(manager.registry_mut().iter().len(), 1);
    assert!(manager.registry().get(&other).is_some());
    // Tasks are handed out even if no such tunnel is registered.
    manager.register_startup_tunnel(9, 9);
    let (task, removed) = manager.destroy_tunnel(9);
    assert_eq!(task, Some(9));
    assert!(matches!(removed, Err(ManagerError::NotFound { tunnel_id: 9 })));
}

#[test]
fn activation_of_an_unknown_tunnel_does_nothing() {
    let mut manager: TunnelManager<()> = TunnelManager::new(TunnelRegistry::new());
    manager.activate(&DemuxKey { tunnel_id: 1, peer_addr: IpAddr::V4(1) });
    assert!(manager.registry().is_empty());
}

#[test]
fn helper_replies() {
    assert!(check_tap_reply(HelperReply::TapCreated, true, "").is_ok());
    assert!(matches!(
        check_tap_reply(HelperReply::Other, true, "?"),
        Err(ManagerError::Unexpected { reply }) if reply == "?"
    ));
    assert!(drain_continues(&Some(HelperReply::RawSocket { address_family: 10 })));
    assert!(drain_continues(&Some(HelperReply::Error { msg: String::new() })));
    assert!(!drain_continues(&Some(HelperReply::TapCreated)));
    assert!(!drain_continues(&None));
}

#[test]
fn startup_decisions() {
    assert_eq!(pool_size(1024, 0), Some(1024 + 384));
    assert_eq!(pool_size(1024, 3), Some(3 * 1024 + 384));
    assert_eq!(pool_size(usize::MAX, 1), None);
    assert_eq!(pool_size(usize::MAX / 2, 3), None);
    assert!(check_helper_ready(&HelperReply::HelperReady, "").is_ok());
    assert_eq!(
        check_helper_ready(&HelperReply::TapCreated, "TapCreated").unwrap_err(),
        "unexpected helper msg: TapCreated"
    );
    assert!(check_startup_tap(&HelperReply::TapCreated, true, "").is_ok());
    assert_eq!(check_startup_tap(&HelperReply::TapCreated, false, "").unwrap_err(), "no TAP fd");
    let error = HelperReply::Error { msg: "denied".into() };
    assert_eq!(check_startup_tap(&error, true, "").unwrap_err(), "helper: denied");
    assert_eq!(
        check_startup_tap(&HelperReply::Other, true, "X").unwrap_err(),
        "unexpected: X"
    );
    assert!(is_raw_v4(&HelperReply::RawSocket { address_family: 2 }));
    assert!(!is_raw_v4(&HelperReply::RawSocket { address_family: 10 }));
    assert!(is_raw_v6(&HelperReply::RawSocket { address_family: 10 }));
    assert!(!is_raw_v6(&error));
    assert_eq!(raw_fd_or_none(Some(7)), 7);
    assert_eq!(raw_fd_or_none(None), -1);
}

#[test]
fn configured_tunnels_are_registered() {
    let mut registry = TunnelRegistry::new();
    let mut tunnel = config(5, 6);
    let key = register_configured(&mut registry, &tunnel, 16).unwrap();
    assert_eq!(key.tunnel_id, 5);
    assert_eq!(key.peer_addr, tunnel.remote);
    let guard = registry.get_ref(&key).unwrap();
    assert_eq!(guard.value().rx_channel.as_ref().unwrap().capacity(), Some(16));
    drop(guard);
    tunnel.enabled = false;
    tunnel.tunnel_id = 6;
    assert!(register_configured(&mut registry, &tunnel, 16).is_none());
    assert_eq!(registry.len(), 1);
}

fn request(tunnel_id: u32, mtu: u32, iface_name: &str) -> CreateTunnelRequest {
    CreateTunnelRequest {
        tunnel_id,
        local_addr: "10.0.0.1".into(),
        remote_addr: "somewhere".into(),
        iface_name: iface_name.into(),
        mtu,
    }
}

#[test]
fn create_requests() {
    let local = Some(IpAddr::V4(1));
    let remote = Some(IpAddr::V4(2));
    let config = tunnel_config_from_request(request(65536 + 7, 0, ""), local, remote).unwrap();
    assert_eq!(config.tunnel_id, 7);
    assert_eq!(config.mtu, 1458);
    assert_eq!(config.iface_name, None);
    assert!(config.enabled);
    assert_eq!(config.keepalive_interval_secs, 10);
    assert_eq!(config.keepalive_timeout_secs, 100);
    let config = tunnel_config_from_request(request(7, 65536 + 9, "tap"), local, remote).unwrap();
    assert_eq!(config.mtu, 9);
    assert_eq!(config.iface_name, Some("tap".to_string()));
    assert!(matches!(
        tunnel_config_from_request(request(7, 0, ""), local, None),
        Err(ApiError::InvalidArgument(text)) if text == "invalid remote_addr: somewhere"
    ));
    assert!(matches!(
        tunnel_config_from_request(request(7, 0, ""), None, None),
        Err(ApiError::InvalidArgument(text)) if text == "invalid local_addr: 10.0.0.1"
    ));
    assert_eq!(request_tunnel_id(0x12345), 0x2345);
}

#[test]
fn showing_tunnels() {
    let mut registry = TunnelRegistry::new();
    let mut tunnel = config(5, 6);
    tunnel.keepalive_timeout_secs = (1 << 32) + 3;
    let key = register_configured(&mut registry, &tunnel, 16).unwrap();
    register_configured(&mut registry, &config(8, 9), 16).unwrap();
    let info = get_tunnel(&registry, 65536 + 5).unwrap();
    assert_eq!(info.tunnel_id, 5);
    assert_eq!(info.local, tunnel.local);
    assert_eq!(info.remote, key.peer_addr);
    assert_eq!(info.iface_name, "eoip5");
    assert_eq!(info.mtu, 1458);
    assert!(info.enabled);
    assert_eq!(info.state, TunnelState::Initializing);
    assert_eq!(info.keepalive_interval_secs, 10);
    assert_eq!(info.keepalive_timeout_secs, 3);
    assert!(matches!(
        get_tunnel(&registry, 6),
        Err(ApiError::NotFound(text)) if text == "tunnel 6 not found"
    ));
    let mut ids: Vec<u32> = list_tunnels(&registry).iter().map(|i| i.tunnel_id).collect();
    ids.sort();
    assert_eq!(ids, vec![5, 8]);
}

#[test]
fn statistics() {
    let mut registry = TunnelRegistry::new();
    for (id, activate, timeout) in [(1u16, true, false), (2, true, true), (3, false, false), (4, true, false)] {
        let mut handle = TunnelHandle::new(config(id, 2));
        if activate {
            handle.activate();
        }
        handle.stats.record_rx(10 * id as u64, 5);
        handle.stats.record_tx(100 * id as u64, 6);
        if timeout {
            check_keepalive(&mut handle, i64::MAX);
        }
        registry.insert(DemuxKey { tunnel_id: id, peer_addr: IpAddr::V4(2) }, handle);
    }
    assert_eq!(
        get_global_stats(&registry),
        GlobalStats {
            active_tunnels: 2,
            stale_tunnels: 1,
            total_tx_packets: 4,
            total_rx_packets: 4,
            total_tx_bytes: 1000,
            total_rx_bytes: 100,
        }
    );
    let info = get_stats(&registry, 3).unwrap();
    assert_eq!(info.tunnel_id, 3);
    assert_eq!(info.stats.rx_bytes, 30);
    assert_eq!(info.stats.last_tx_timestamp, 6);
    assert!(matches!(
        get_stats(&registry, 9),
        Err(ApiError::NotFound(text)) if text == "tunnel 9 not found"
    ));
    assert_eq!(get_global_stats(&TunnelRegistry::new()).active_tunnels, 0);
}

#[test]
fn sums_wrap_around() {
    let mut registry = TunnelRegistry::new();
    for id in [1u16, 2] {
        let mut handle = TunnelHandle::new(config(id, 2));
        handle.stats.rx_bytes = u64::MAX;
        handle.stats.record_rx(3, 1);
        assert_eq!(handle.stats.rx_bytes, 2);
        handle.stats.tx_bytes = u64::MAX;
        registry.insert(DemuxKey { tunnel_id: id, peer_addr: IpAddr::V4(2) }, handle);
    }
    assert_eq!(get_global_stats(&registry).total_tx_bytes, u64::MAX - 1);
}

#[test]
fn windows_adapters() {
    assert_eq!(device_path("{0637F4AD}"), "\\\\.\\Global\\{0637F4AD}.tap\0");
    assert!(is_tap_component("tap0901") && is_tap_component("root\\tap0901"));
    assert!(!is_tap_component("TAP0901"));
    assert!(media_status_retries(0) && media_status_retries(1) && !media_status_retries(2));
    assert!(adapter_matches(None, None));
    assert!(adapter_matches(None, Some("b")));
    assert!(adapter_matches(Some("a"), Some("a")));
    assert!(!adapter_matches(Some("a"), Some("b")));
    assert!(!adapter_matches(Some("a"), None));
    assert_eq!(mtu_argument(1400), "mtu=1400");
}

#[test]
fn raw_sockets_that_are_taken() {
    let v6 = Some(HelperReply::RawSocket { address_family: 10 });
    let v4 = Some(HelperReply::RawSocket { address_family: 2 });
    let error = Some(HelperReply::Error { msg: "no IPv6".into() });
    assert_eq!(take_raw_sockets(false, Some(4), &v6, Some(6)), (Some(4), Some(6)));
    assert_eq!(take_raw_sockets(false, None, &v6, Some(6)), (None, Some(6)));
    assert_eq!(take_raw_sockets(false, Some(4), &v4, Some(6)), (Some(4), None));
    assert_eq!(take_raw_sockets(false, Some(4), &error, Some(6)), (Some(4), None));
    assert_eq!(take_raw_sockets(false, Some(4), &None, Some(6)), (Some(4), None));
    assert_eq!(take_raw_sockets(true, Some(4), &v6, Some(6)), (None, None));
}

#[test]
fn registered_tunnels_are_checked_in_place() {
    let mut registry = TunnelRegistry::new();
    let key = register_configured(&mut registry, &config(5, 6), 16).unwrap();
    let unknown = DemuxKey { tunnel_id: 5, peer_addr: IpAddr::V4(1) };
    assert_eq!(check_tunnel(&mut registry, &unknown, 1), None);
    assert_eq!(check_tunnel(&mut registry, &key, 1), Some(KeepaliveChange::Unchanged));
    let (_, mut handle) = registry.remove(&key).unwrap();
    handle.activate();
    handle.stats.last_rx_timestamp = 1;
    registry.insert(key, handle);
    assert_eq!(
        check_tunnel(&mut registry, &key, 200_001),
        Some(KeepaliveChange::WentStale { elapsed_secs: 200 })
    );
    assert_eq!(registry.get(&key).unwrap().state, TunnelState::Stale);

    assert_eq!(finish_discovery(&mut registry, &unknown, Some(1500), None), None);
    assert_eq!(finish_discovery(&mut registry, &key, None, Some(1420)), Some(1378));
    assert_eq!(finish_discovery(&mut registry, &key, None, Some(1500)), None);
    assert_eq!(finish_discovery(&mut registry, &key, Some(1500), None), Some(1458));
    assert_eq!(finish_discovery(&mut registry, &key, Some(1500), None), None);
    assert_eq!(registry.get(&key).unwrap().actual_mtu, 1458);

    let mut buf = PacketBuf::new();
    buf.payload_mut()[0] = 9;
    let decision = accept_tunnel_frame(&mut registry, &unknown, &mut buf, 1, 7);
    assert_eq!(decision, TxDecision::Gone);
    // The tunnel is stale: nothing is sent until it recovers.
    let decision = accept_tunnel_frame(&mut registry, &key, &mut buf, 1, 7);
    assert_eq!(decision, TxDecision::Suspended);
    assert!(buf.is_empty());
    assert_eq!(registry.get(&key).unwrap().stats.tx_packets, 0);
    assert_eq!(check_tunnel(&mut registry, &key, 2), Some(KeepaliveChange::Recovered));
    let decision = accept_tunnel_frame(&mut registry, &key, &mut buf, 1, 7);
    let header = TxHeader::Eoip { tunnel_id: 5, payload_len: 1 };
    assert_eq!(decision, TxDecision::Send { header, remote: key.peer_addr });
    assert_eq!(buf.as_slice(), &[9]);
    let stats = registry.get(&key).unwrap().stats;
    assert_eq!((stats.tx_packets, stats.tx_bytes, stats.last_tx_timestamp), (1, 1, 7));
}
