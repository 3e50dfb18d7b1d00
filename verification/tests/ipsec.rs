use eoip_rs::ipsec::config::IpsecTunnelConfig;
use eoip_rs::ipsec::vici::{
    check_elements, check_vici_response, elements_show_sa, event_shows_sa, no_socket_error,
    sa_query, vici_socket_paths, Element,
};
use eoip_rs::ipsec::{
    setup_advance, setup_command, teardown_commands, unavailable_error, IpsecManager,
    SetupProgress, SetupStage,
};
use eoip_rs::text::{same_text, to_decimal};
use rustici::Message;

fn config(tunnel_id: u16) -> IpsecTunnelConfig {
    IpsecTunnelConfig::new(
        tunnel_id,
        "192.168.1.1".into(),
        "192.168.1.2".into(),
        "TestSecret123".into(),
    )
}

#[test]
fn conn_name_format() {
    let cfg = IpsecTunnelConfig::new(
        100,
        "10.0.0.1".into(),
        "10.0.0.2".into(),
        "secret".into(),
    );
    assert_eq!(cfg.conn_name(), "eoip-100");
    assert_eq!(cfg.child_name(), "eoip-100-gre");
}

#[test]
fn vici_connection_encodes() {
    let cfg = config(42);
    let msg = cfg.to_vici_connection();
    // Verify it can encode without panic
    let encoded = msg.encode().expect("encode should succeed");
    assert!(!encoded.is_empty());
    assert_eq!(Message::decode(&encoded).unwrap(), msg);
}

#[test]
fn vici_shared_secret_encodes() {
    let cfg = config(42);
    let msg = cfg.to_vici_shared_secret();
    let encoded = msg.encode().expect("encode should succeed");
    assert!(!encoded.is_empty());
}

#[test]
fn connection_message() {
    let expected = Message::new()
        .section_start("eoip-42")
        .kv_str("version", "1")
        .section_start("local")
        .kv_str("auth", "psk")
        .kv_str("id", "192.168.1.1")
        .section_end()
        .section_start("remote")
        .kv_str("auth", "psk")
        .kv_str("id", "192.168.1.2")
        .section_end()
        .list_start("proposals")
        .list_item_str("aes128-sha1-modp2048")
        .list_item_str("aes128-sha1-modp1024")
        .list_item_str("3des-sha1-modp2048")
        .list_item_str("3des-sha1-modp1024")
        .list_end()
        .kv_str("dpd_delay", "8s")
        .kv_str("rekey_time", "24h")
        .kv_str("local_addrs", "192.168.1.1")
        .kv_str("remote_addrs", "192.168.1.2")
        .section_start("children")
        .section_start("eoip-42-gre")
        .kv_str("mode", "transport")
        .list_start("esp_proposals")
        .list_item_str("aes256-sha1-modp1024")
        .list_item_str("aes192-sha1-modp1024")
        .list_item_str("aes128-sha1-modp1024")
        .list_end()
        .kv_str("rekey_time", "30m")
        .list_start("local_ts")
        .list_item_str("192.168.1.1[gre]")
        .list_end()
        .list_start("remote_ts")
        .list_item_str("192.168.1.2[gre]")
        .list_end()
        .kv_str("replay_window", "128")
        .kv_str("start_action", "start")
        .kv_str("dpd_action", "restart")
        .section_end()
        .section_end()
        .section_end();
    assert_eq!(config(42).to_vici_connection(), expected);
}

#[test]
fn other_messages() {
    let cfg = config(42);
    let shared = Message::new()
        .kv_str("id", "eoip-psk-42")
        .kv_str("type", "IKE")
        .kv_bytes("data", b"TestSecret123")
        .list_start("owners")
        .list_item_str("192.168.1.1")
        .list_item_str("192.168.1.2")
        .list_end();
    assert_eq!(cfg.to_vici_shared_secret(), shared);
    let child = Message::new().kv_str("child", "eoip-42-gre").kv_str("ike", "eoip-42");
    assert_eq!(cfg.to_vici_initiate(), child);
    assert_eq!(cfg.to_vici_terminate(), child);
    assert_eq!(cfg.to_vici_unload(), Message::new().kv_str("name", "eoip-42"));
    assert_eq!(sa_query("eoip-42"), Message::new().kv_str("ike", "eoip-42"));
}

#[test]
fn responses() {
    let ok = Message::new().kv_str("success", "yes").kv_str("errmsg", "ignored");
    assert!(check_vici_response("load-conn", &ok).is_ok());
    for reply in [Message::new(), Message::new().kv_str("success", "maybe")] {
        assert_eq!(
            check_vici_response("load-conn", &reply).unwrap_err(),
            "VICI load-conn failed: response does not say success=yes"
        );
    }
    let no = Message::new().kv_str("success", "no").kv_str("errmsg", "bad key");
    assert_eq!(
        check_vici_response("load-conn", &no).unwrap_err(),
        "VICI load-conn failed: bad key"
    );
    let bare = Message::new().kv_str("success", "no");
    assert_eq!(
        check_vici_response("initiate", &bare).unwrap_err(),
        "VICI initiate failed: unknown error"
    );
    // The last value of a key counts, and bytes that are no text are replaced.
    let twice = Message::new()
        .kv_str("success", "yes")
        .kv_bytes("errmsg", b"a\xff")
        .kv_str("success", "no");
    assert_eq!(
        check_vici_response("c", &twice).unwrap_err(),
        "VICI c failed: a\u{fffd}"
    );
    let elements = vec![Element::KeyValue("success".into(), b"no".to_vec())];
    assert!(check_elements("c", &elements).is_err());
    let elements = vec![Element::KeyValue("success".into(), b"yes".to_vec())];
    assert!(check_elements("c", &elements).is_ok());
    assert!(check_elements("c", &vec![Element::ListItem(b"yes".to_vec())]).is_err());
}

#[test]
fn association_events() {
    let event = |state: &str| {
        Message::new()
            .section_start("eoip-42")
            .kv_str("uniqueid", "1")
            .kv_str("state", state)
            .section_end()
    };
    assert!(event_shows_sa(&event("ESTABLISHED"), "eoip-42"));
    assert!(!event_shows_sa(&event("CONNECTING"), "eoip-42"));
    assert!(!event_shows_sa(&event("INSTALLED"), "eoip-42"));
    // Another connection's section does not count.
    assert!(!event_shows_sa(&event("ESTABLISHED"), "eoip-4"));
    let outside = Message::new().kv_str("state", "ESTABLISHED");
    assert!(!event_shows_sa(&outside, "eoip-42"));
    assert!(!elements_show_sa(&Vec::new(), "eoip-42"));
}

#[test]
fn association_sections_nest() {
    // What follows the section's end is not in it, but what follows the end of
    // a section inside it is.
    let after = Message::new()
        .section_start("eoip-42")
        .section_start("child-sas")
        .section_end()
        .section_end()
        .section_start("other")
        .kv_str("state", "ESTABLISHED")
        .section_end();
    assert!(!event_shows_sa(&after, "eoip-42"));
    let behind_child = Message::new()
        .section_start("eoip-42")
        .section_start("child-sas")
        .section_end()
        .kv_str("state", "ESTABLISHED")
        .section_end();
    assert!(event_shows_sa(&behind_child, "eoip-42"));
    // A second section of the connection counts as well.
    let second = Message::new()
        .section_end()
        .section_start("eoip-42")
        .section_end()
        .section_start("eoip-42")
        .kv_str("state", "ESTABLISHED")
        .section_end();
    assert!(event_shows_sa(&second, "eoip-42"));
    assert!(!elements_show_sa(
        &vec![
            Element::SectionStart("eoip-42".into()),
            Element::ListStart("state".into()),
            Element::ListItem(b"ESTABLISHED".to_vec()),
            Element::ListEnd,
            Element::SectionEnd,
        ],
        "eoip-42",
    ));
}

#[test]
fn setup_in_order() {
    let cfg = config(42);
    let command = setup_command(SetupStage::LoadShared, &cfg);
    assert_eq!(command.name, "load-shared");
    assert_eq!(command.message, cfg.to_vici_shared_secret());
    assert!(matches!(
        setup_advance(SetupStage::LoadShared, Ok(())),
        SetupProgress::Next(SetupStage::LoadConn)
    ));
    let command = setup_command(SetupStage::LoadConn, &cfg);
    assert_eq!(command.name, "load-conn");
    assert_eq!(command.message, cfg.to_vici_connection());
    assert!(matches!(
        setup_advance(SetupStage::LoadConn, Ok(())),
        SetupProgress::Next(SetupStage::Initiate)
    ));
    let command = setup_command(SetupStage::Initiate, &cfg);
    assert_eq!(command.name, "initiate");
    assert_eq!(command.message, cfg.to_vici_initiate());
    assert!(matches!(setup_advance(SetupStage::Initiate, Ok(())), SetupProgress::Done));
}

#[test]
fn setup_failures() {
    assert!(matches!(
        setup_advance(SetupStage::LoadShared, Err("e".into())),
        SetupProgress::Failed(text) if text == "load-shared failed: e"
    ));
    assert!(matches!(
        setup_advance(SetupStage::LoadConn, Err("e".into())),
        SetupProgress::Failed(text) if text == "load-conn failed: e"
    ));
    // The peer may not be ready: no failure.
    assert!(matches!(
        setup_advance(SetupStage::Initiate, Err("e".into())),
        SetupProgress::Done
    ));
    assert_eq!(
        unavailable_error(),
        "strongSwan not available — install strongswan-charon and start the service"
    );
}

#[test]
fn tunnels_with_ipsec() {
    let mut manager = IpsecManager::new();
    assert!(manager.tunnel_ids().is_empty());
    manager.setup_tunnel(config(42));
    manager.setup_tunnel(config(43));
    manager.setup_tunnel(config(42));
    let mut ids = manager.tunnel_ids();
    ids.sort();
    assert_eq!(ids, vec![42, 43]);
    assert_eq!(manager.connection_of(43), Some("eoip-43".to_string()));
    assert_eq!(manager.connection_of(44), None);
    let command = manager.reinitiate(42).unwrap();
    assert_eq!(command.name, "initiate");
    assert_eq!(command.message, config(42).to_vici_initiate());
    assert!(manager.reinitiate(44).is_none());
    let removed = manager.teardown_tunnel(42).unwrap();
    let commands = teardown_commands(&removed);
    assert_eq!(commands[0].name, "terminate");
    assert_eq!(commands[0].message, config(42).to_vici_terminate());
    assert_eq!(commands[1].name, "unload-conn");
    assert_eq!(commands[1].message, config(42).to_vici_unload());
    assert!(manager.teardown_tunnel(42).is_none());
    assert_eq!(manager.tunnel_ids(), vec![43]);
}

#[test]
fn socket_paths() {
    assert_eq!(
        vici_socket_paths(),
        vec![
            "/run/strongswan/charon.vici".to_string(),
            "/var/run/charon.vici".to_string(),
            "/var/run/strongswan/charon.vici".to_string(),
        ]
    );
    assert_eq!(
        no_socket_error(),
        "no VICI socket found at: /run/strongswan/charon.vici, /var/run/charon.vici, \
         /var/run/strongswan/charon.vici"
    );
}

#[test]
fn decimal_numbers() {
    for n in [0u64, 7, 10, 99, 100, 65535, u64::MAX] {
        assert_eq!(to_decimal(n), n.to_string());
    }
    assert!(same_text("é", "é") && !same_text("e", "é") && !same_text("a", "ab"));
}
