use eoip_rs::addr::IpAddr;
use eoip_rs::config::{
    default_enabled, default_keepalive_interval_secs, default_keepalive_timeout_secs, default_mtu,
    validate_config, ApiConfig, Config, ConfigError, DaemonConfig, LoggingConfig,
    PerformanceConfig, TunnelConfig,
};

/// The address of a text in dotted form, or of the form `fd00::n`.
fn addr(text: &str) -> IpAddr {
    if let Some(last) = text.strip_prefix("fd00::") {
        return IpAddr::V6((0xfd00u128 << 112) + last.parse::<u128>().unwrap());
    }
    let octets: Vec<u8> = text.split('.').map(|part| part.parse().unwrap()).collect();
    IpAddr::from_v4_octets(octets[0], octets[1], octets[2], octets[3])
}

fn text_or(table: &toml::Table, key: &str, default: String) -> String {
    match table.get(key) {
        Some(value) => value.as_str().unwrap().to_string(),
        None => default,
    }
}

fn number_or(table: &toml::Table, key: &str, default: u64) -> u64 {
    match table.get(key) {
        Some(value) => value.as_integer().unwrap() as u64,
        None => default,
    }
}

fn section(table: &toml::Table, name: &str) -> toml::Table {
    match table.get(name) {
        Some(value) => value.as_table().unwrap().clone(),
        None => toml::Table::new(),
    }
}

fn tunnel(table: &toml::Table) -> TunnelConfig {
    TunnelConfig {
        tunnel_id: number_or(table, "tunnel_id", 0) as u16,
        local: addr(table["local"].as_str().unwrap()),
        remote: addr(table["remote"].as_str().unwrap()),
        iface_name: table.get("iface_name").map(|name| name.as_str().unwrap().to_string()),
        mtu: number_or(table, "mtu", default_mtu() as u64) as u16,
        enabled: match table.get("enabled") {
            Some(value) => value.as_bool().unwrap(),
            None => default_enabled(),
        },
        keepalive_interval_secs: number_or(
            table,
            "keepalive_interval_secs",
            default_keepalive_interval_secs(),
        ),
        keepalive_timeout_secs: number_or(
            table,
            "keepalive_timeout_secs",
            default_keepalive_timeout_secs(),
        ),
    }
}

fn parse(text: &str) -> Result<Config, toml::de::Error> {
    let table: toml::Table = toml::from_str(text)?;
    let daemon = section(&table, "daemon");
    let performance = section(&table, "performance");
    let defaults = PerformanceConfig::default();
    let daemon_defaults = DaemonConfig::default();
    Ok(Config {
        daemon: DaemonConfig {
            user: text_or(&daemon, "user", daemon_defaults.user),
            group: text_or(&daemon, "group", daemon_defaults.group),
            helper_mode: text_or(&daemon, "helper_mode", daemon_defaults.helper_mode),
            helper_socket: text_or(&daemon, "helper_socket", daemon_defaults.helper_socket),
        },
        api: ApiConfig { listen: text_or(&section(&table, "api"), "listen", ApiConfig::default().listen) },
        logging: LoggingConfig {
            level: text_or(&section(&table, "logging"), "level", LoggingConfig::default().level),
            format: text_or(&section(&table, "logging"), "format", LoggingConfig::default().format),
        },
        performance: PerformanceConfig {
            low_water_mark: number_or(&performance, "low_water_mark", defaults.low_water_mark as u64) as usize,
            high_water_mark: number_or(&performance, "high_water_mark", defaults.high_water_mark as u64) as usize,
            max_batch_size: number_or(&performance, "max_batch_size", defaults.max_batch_size as u64) as usize,
            batch_timeout_us: number_or(&performance, "batch_timeout_us", defaults.batch_timeout_us),
            channel_buffer: number_or(&performance, "channel_buffer", defaults.channel_buffer as u64) as usize,
            rx_workers: number_or(&performance, "rx_workers", defaults.rx_workers as u64) as usize,
        },
        tunnels: match table.get("tunnel") {
            Some(list) => list
                .as_array()
                .unwrap()
                .iter()
                .map(|entry| tunnel(entry.as_table().unwrap()))
                .collect(),
            None => Vec::new(),
        },
    })
}

const VALID_CONFIG: &str = r#"
[daemon]
user = "eoip"
group = "eoip"
helper_mode = "persist"
helper_socket = "/run/eoip-rs/helper.sock"

[api]
listen = "[::1]:50051"

[logging]
level = "info"
format = "pretty"

[performance]
low_water_mark = 8
high_water_mark = 256
max_batch_size = 64
batch_timeout_us = 50
channel_buffer = 1024
rx_workers = 1

[[tunnel]]
tunnel_id = 100
local = "192.168.1.1"
remote = "192.168.1.2"
iface_name = "eoip-dc1"
mtu = 1500
enabled = true

[[tunnel]]
tunnel_id = 200
local = "10.0.0.1"
remote = "10.0.0.2"
mtu = 1400
"#;

#[test]
fn parse_valid_config() {
    let config = parse(VALID_CONFIG).unwrap();
    assert_eq!(config.tunnels.len(), 2);
    assert_eq!(config.tunnels[0].tunnel_id, 100);
    assert_eq!(config.tunnels[0].local, addr("192.168.1.1"));
    assert_eq!(config.tunnels[0].effective_iface_name(), "eoip-dc1");
    assert_eq!(config.tunnels[1].effective_iface_name(), "eoip200");
    assert_eq!(config.daemon.helper_mode, "persist");
    assert_eq!(config.performance.max_batch_size, 64);
    assert!(validate_config(&config).is_ok());
}

#[test]
fn parse_minimal_config() {
    let config = parse("").unwrap();
    assert!(config.tunnels.is_empty());
    assert_eq!(config.daemon.user, "eoip");
    assert_eq!(config.performance.rx_workers, 1);
}

#[test]
fn parse_ipv6_tunnel() {
    let toml = r#"
[[tunnel]]
tunnel_id = 42
local = "fd00::1"
remote = "fd00::2"
"#;
    let config = parse(toml).unwrap();
    validate_config(&config).unwrap();
    assert!(config.tunnels[0].local.is_ipv6());
}

#[test]
fn validate_ipv6_tunnel_id_too_large() {
    let toml = r#"
[[tunnel]]
tunnel_id = 5000
local = "fd00::1"
remote = "fd00::2"
"#;
    let config = parse(toml).unwrap();
    let error = validate_config(&config).unwrap_err();
    assert_eq!(
        error.message("", ""),
        "tunnel[0]: tunnel_id 5000 exceeds EoIPv6 maximum of 4095"
    );
}

#[test]
fn validate_mixed_address_families() {
    let toml = r#"
[[tunnel]]
tunnel_id = 1
local = "10.0.0.1"
remote = "fd00::2"
"#;
    let config = parse(toml).unwrap();
    let error = validate_config(&config).unwrap_err();
    assert_eq!(
        error.message("10.0.0.1", "fd00::2"),
        "tunnel[0]: local (10.0.0.1) and remote (fd00::2) must be same address family"
    );
}

#[test]
fn validate_invalid_helper_mode() {
    let toml = r#"
[daemon]
helper_mode = "invalid"
"#;
    let config = parse(toml).unwrap();
    let error = validate_config(&config).unwrap_err();
    assert_eq!(
        error.message("", ""),
        "helper_mode must be 'persist' or 'exit', got 'invalid'"
    );
}

#[test]
fn validate_iface_name_too_long() {
    let toml = r#"
[[tunnel]]
tunnel_id = 1
local = "10.0.0.1"
remote = "10.0.0.2"
iface_name = "this-name-is-way-too-long"
"#;
    let config = parse(toml).unwrap();
    let error = validate_config(&config).unwrap_err();
    assert_eq!(
        error.message("", ""),
        "tunnel[0]: iface_name 'this-name-is-way-too-long' exceeds 15 chars (Linux IFNAMSIZ)"
    );
}

#[test]
fn parse_invalid_toml() {
    assert!(parse("invalid [[[toml").is_err());
}

#[test]
fn default_keepalive_values() {
    let toml = r#"
[[tunnel]]
tunnel_id = 1
local = "10.0.0.1"
remote = "10.0.0.2"
"#;
    let config = parse(toml).unwrap();
    assert_eq!(config.tunnels[0].keepalive_interval_secs, 10);
    assert_eq!(config.tunnels[0].keepalive_timeout_secs, 100);
}

#[test]
fn defaults() {
    let config = parse("").unwrap();
    assert_eq!(config.daemon.group, "eoip");
    assert_eq!(config.daemon.helper_mode, "persist");
    assert_eq!(config.daemon.helper_socket, "/run/eoip-rs/helper.sock");
    assert_eq!(config.api.listen, "[::1]:50051");
    assert_eq!(config.logging.level, "info");
    assert_eq!(config.logging.format, "pretty");
    assert_eq!(config.performance.low_water_mark, 8);
    assert_eq!(config.performance.high_water_mark, 256);
    assert_eq!(config.performance.max_batch_size, 64);
    assert_eq!(config.performance.batch_timeout_us, 50);
    assert_eq!(config.performance.channel_buffer, 1024);
    assert_eq!(default_mtu(), 1458);
    assert!(default_enabled());
}

#[test]
fn first_error_is_reported() {
    let mut config = parse(VALID_CONFIG).unwrap();
    config.daemon.helper_mode = "exit".into();
    assert!(validate_config(&config).is_ok());
    config.tunnels[1].local = addr("fd00::1");
    config.tunnels[1].tunnel_id = 4096;
    // The ID is checked before the families.
    assert!(matches!(
        validate_config(&config),
        Err(ConfigError::TunnelIdTooLarge { index: 1, tunnel_id: 4096 })
    ));
    config.tunnels[1].tunnel_id = 4095;
    assert!(matches!(
        validate_config(&config),
        Err(ConfigError::MixedAddressFamilies { index: 1, .. })
    ));
    config.tunnels[0].iface_name = Some("x".repeat(16));
    assert!(matches!(
        validate_config(&config),
        Err(ConfigError::IfaceNameTooLong { index: 0, .. })
    ));
    config.daemon.helper_mode = "Persist".into();
    assert!(matches!(validate_config(&config), Err(ConfigError::HelperMode(_))));
}

#[test]
fn interface_names_are_measured_in_bytes() {
    let mut config = parse(VALID_CONFIG).unwrap();
    config.tunnels[0].iface_name = Some("x".repeat(15));
    assert!(validate_config(&config).is_ok());
    // Eight characters of two bytes each.
    config.tunnels[0].iface_name = Some("é".repeat(8));
    assert!(validate_config(&config).is_err());
    config.tunnels[0].iface_name = Some("é".repeat(7));
    assert!(validate_config(&config).is_ok());
}

#[test]
fn interface_names_from_ids() {
    let mut config = parse(VALID_CONFIG).unwrap().tunnels.remove(1);
    for (id, name) in [(0, "eoip0"), (9, "eoip9"), (10, "eoip10"), (65535, "eoip65535")] {
        config.tunnel_id = id;
        assert_eq!(config.effective_iface_name(), name);
    }
    let copy = config.clone();
    assert_eq!(copy.tunnel_id, 65535);
    assert_eq!(copy.iface_name, None);
}
