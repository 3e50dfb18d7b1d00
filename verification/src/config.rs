//! Daemon configuration: defaults and validation.

use crate::addr::IpAddr;
use crate::text::decimal;
use crate::text::law_decimal_reads_back;
use crate::text::same_text;
use crate::text::to_decimal;
use vstd::prelude::*;
use vstd::string::*;
use vstd::utf8::*;

verus! {

/// Top-level daemon configuration.
#[derive(Debug)]
pub struct Config {
    pub daemon: DaemonConfig,
    pub api: ApiConfig,
    pub logging: LoggingConfig,
    pub performance: PerformanceConfig,
    pub tunnels: Vec<TunnelConfig>,
}

#[derive(Debug)]
pub struct DaemonConfig {
    pub user: String,
    pub group: String,
    pub helper_mode: String,
    /// Path of the helper's socket.
    pub helper_socket: String,
}

impl Default for DaemonConfig {
    fn default() -> (config: Self)
        ensures
            config.user@ == "eoip"@,
            config.group@ == "eoip"@,
            config.helper_mode@ == "persist"@,
            config.helper_socket@ == "/run/eoip-rs/helper.sock"@,
    {
        DaemonConfig {
            user: default_user(),
            group: default_group(),
            helper_mode: default_helper_mode(),
            helper_socket: default_helper_socket(),
        }
    }
}

#[derive(Debug)]
pub struct ApiConfig {
    pub listen: String,
}

impl Default for ApiConfig {
    fn default() -> (config: Self)
        ensures
            config.listen@ == "[::1]:50051"@,
    {
        ApiConfig { listen: default_api_listen() }
    }
}

#[derive(Debug)]
pub struct LoggingConfig {
    pub level: String,
    pub format: String,
}

impl Default for LoggingConfig {
    fn default() -> (config: Self)
        ensures
            config.level@ == "info"@,
            config.format@ == "pretty"@,
    {
        LoggingConfig { level: default_log_level(), format: default_log_format() }
    }
}

#[derive(Debug)]
pub struct PerformanceConfig {
    pub low_water_mark: usize,
    pub high_water_mark: usize,
    pub max_batch_size: usize,
    pub batch_timeout_us: u64,
    pub channel_buffer: usize,
    pub rx_workers: usize,
}

impl Default for PerformanceConfig {
    fn default() -> (config: Self)
        ensures
            config.low_water_mark == 8,
            config.high_water_mark == 256,
            config.max_batch_size == 64,
            config.batch_timeout_us == 50,
            config.channel_buffer == 1024,
            config.rx_workers == 1,
    {
        PerformanceConfig {
            low_water_mark: default_low_water_mark(),
            high_water_mark: default_high_water_mark(),
            max_batch_size: default_max_batch_size(),
            batch_timeout_us: default_batch_timeout_us(),
            channel_buffer: default_channel_buffer(),
            rx_workers: default_rx_workers(),
        }
    }
}

/// Per-tunnel configuration.
#[derive(Debug)]
pub struct TunnelConfig {
    pub tunnel_id: u16,
    pub local: IpAddr,
    pub remote: IpAddr,
    pub iface_name: Option<String>,
    pub mtu: u16,
    pub enabled: bool,
    pub keepalive_interval_secs: u64,
    pub keepalive_timeout_secs: u64,
}

impl Clone for TunnelConfig {
    fn clone(&self) -> (copy: Self)
        ensures
            copy == *self,
    {
        let iface_name = match &self.iface_name {
            Some(name) => Some(name.clone()),
            None => None,
        };
        TunnelConfig {
            tunnel_id: self.tunnel_id,
            local: self.local,
            remote: self.remote,
            iface_name,
            mtu: self.mtu,
            enabled: self.enabled,
            keepalive_interval_secs: self.keepalive_interval_secs,
            keepalive_timeout_secs: self.keepalive_timeout_secs,
        }
    }
}

/// The interface name of a tunnel: the configured one, or `eoip` and the
/// tunnel ID.
pub open spec fn iface_name_of(config: TunnelConfig) -> Seq<char> {
    match config.iface_name {
        Some(name) => name@,
        None => "eoip"@ + decimal(config.tunnel_id as nat),
    }
}

impl TunnelConfig {
    /// Generate a default interface name from the tunnel ID if none is specified.
    pub fn effective_iface_name(&self) -> (name: String)
        ensures
            name@ == iface_name_of(*self),
    {
        match &self.iface_name {
            Some(name) => name.clone(),
            None => {
                let mut name = String::from_str("eoip");
                let id = to_decimal(self.tunnel_id as u64);
                name.append(id.as_str());
                name
            },
        }
    }
}

pub fn default_user() -> (user: String)
    ensures
        user@ == "eoip"@,
{
    String::from_str("eoip")
}

pub fn default_group() -> (group: String)
    ensures
        group@ == "eoip"@,
{
    String::from_str("eoip")
}

pub fn default_helper_mode() -> (mode: String)
    ensures
        mode@ == "persist"@,
{
    String::from_str("persist")
}

pub fn default_helper_socket() -> (path: String)
    ensures
        path@ == "/run/eoip-rs/helper.sock"@,
{
    String::from_str("/run/eoip-rs/helper.sock")
}

pub fn default_api_listen() -> (listen: String)
    ensures
        listen@ == "[::1]:50051"@,
{
    String::from_str("[::1]:50051")
}

pub fn default_log_level() -> (level: String)
    ensures
        level@ == "info"@,
{
    String::from_str("info")
}

pub fn default_log_format() -> (format: String)
    ensures
        format@ == "pretty"@,
{
    String::from_str("pretty")
}

pub fn default_low_water_mark() -> (mark: usize)
    ensures
        mark == 8,
{
    8
}

pub fn default_high_water_mark() -> (mark: usize)
    ensures
        mark == 256,
{
    256
}

pub fn default_max_batch_size() -> (size: usize)
    ensures
        size == 64,
{
    64
}

pub fn default_batch_timeout_us() -> (timeout: u64)
    ensures
        timeout == 50,
{
    50
}

pub fn default_channel_buffer() -> (size: usize)
    ensures
        size == 1024,
{
    1024
}

pub fn default_rx_workers() -> (workers: usize)
    ensures
        workers == 1,
{
    1
}

pub fn default_mtu() -> (mtu: u16)
    ensures
        mtu == 1458,
{
    1458
}

pub fn default_enabled() -> (enabled: bool)
    ensures
        enabled,
{
    true
}

pub fn default_keepalive_interval_secs() -> (secs: u64)
    ensures
        secs == 10,
{
    10
}

pub fn default_keepalive_timeout_secs() -> (secs: u64)
    ensures
        secs == 100,
{
    100
}

/// The largest tunnel ID that an EoIPv6 header can carry.
pub const MAX_EOIPV6_TUNNEL_ID: u16 = 4095;

/// The longest interface name, in bytes (Linux IFNAMSIZ less the NUL).
pub const MAX_IFACE_NAME_LEN: usize = 15;

/// Why a configuration is not valid.
#[derive(Debug)]
pub enum ConfigError {
    /// `helper_mode` is neither `persist` nor `exit`.
    HelperMode(String),
    /// An IPv6 tunnel has an ID that its header cannot carry.
    TunnelIdTooLarge { index: usize, tunnel_id: u16 },
    /// A tunnel's ends are of different address families.
    MixedAddressFamilies { index: usize, local: IpAddr, remote: IpAddr },
    /// A tunnel's interface name is too long.
    IfaceNameTooLong { index: usize, name: String },
}

/// The first thing that is wrong with the tunnel at `index`, if anything is.
pub open spec fn tunnel_error(index: int, tunnel: TunnelConfig) -> Option<ConfigError> {
    if tunnel.local is V6 && tunnel.tunnel_id > MAX_EOIPV6_TUNNEL_ID {
        Some(
            ConfigError::TunnelIdTooLarge { index: index as usize, tunnel_id: tunnel.tunnel_id },
        )
    } else if (tunnel.local is V4) != (tunnel.remote is V4) {
        Some(
            ConfigError::MixedAddressFamilies {
                index: index as usize,
                local: tunnel.local,
                remote: tunnel.remote,
            },
        )
    } else if tunnel.iface_name is Some && encode_utf8(tunnel.iface_name->0@).len()
        > MAX_IFACE_NAME_LEN {
        Some(
            ConfigError::IfaceNameTooLong { index: index as usize, name: tunnel.iface_name->0 },
        )
    } else {
        None
    }
}

/// The first thing that is wrong with the tunnels from `index` on.
pub open spec fn tunnels_error(tunnels: Seq<TunnelConfig>, index: int) -> Option<ConfigError>
    decreases tunnels.len() - index,
{
    if index < 0 || index >= tunnels.len() {
        None
    } else {
        match tunnel_error(index, tunnels[index]) {
            Some(error) => Some(error),
            None => tunnels_error(tunnels, index + 1),
        }
    }
}

/// The first thing that is wrong with a configuration, if anything is.
pub open spec fn config_error(config: Config) -> Option<ConfigError> {
    if config.daemon.helper_mode@ != "persist"@ && config.daemon.helper_mode@ != "exit"@ {
        Some(ConfigError::HelperMode(config.daemon.helper_mode))
    } else {
        tunnels_error(config.tunnels@, 0)
    }
}

/// Check a configuration: the helper mode first, then tunnel by tunnel.
pub fn validate_config(config: &Config) -> (result: Result<(), ConfigError>)
    ensures
        result is Ok <==> config_error(*config) is None,
        result matches Err(error) ==> config_error(*config) == Some(error),
{
    let mode: &str = config.daemon.helper_mode.as_str();
    if !same_text(mode, "persist") && !same_text(mode, "exit") {
        return Err(ConfigError::HelperMode(config.daemon.helper_mode.clone()));
    }
    let mut i: usize = 0;
    while i < config.tunnels.len()
        invariant
            i <= config.tunnels@.len(),
            tunnels_error(config.tunnels@, 0) == tunnels_error(config.tunnels@, i as int),
            config_error(*config) == tunnels_error(config.tunnels@, 0),
        decreases config.tunnels@.len() - i,
    {
        let tunnel = &config.tunnels[i];
        // IPv6 transport with a tunnel ID that does not fit
        if tunnel.local.is_ipv6() && tunnel.tunnel_id > MAX_EOIPV6_TUNNEL_ID {
            return Err(
                ConfigError::TunnelIdTooLarge { index: i, tunnel_id: tunnel.tunnel_id },
            );
        }
        // Address family consistency
        if tunnel.local.is_ipv4() != tunnel.remote.is_ipv4() {
            return Err(
                ConfigError::MixedAddressFamilies {
                    index: i,
                    local: tunnel.local,
                    remote: tunnel.remote,
                },
            );
        }
        // Interface name length
        if let Some(name) = &tunnel.iface_name {
            if name.as_str().as_bytes().len() > MAX_IFACE_NAME_LEN {
                return Err(ConfigError::IfaceNameTooLong { index: i, name: name.clone() });
            }
        }
        i = i + 1;
    }
    Ok(())
}

/// A configuration is valid exactly if its helper mode is known and each of
/// its tunnels is.
pub proof fn law_valid_iff_every_tunnel_is(config: Config)
    ensures
        config_error(config) is None <==> (config.daemon.helper_mode@ == "persist"@
            || config.daemon.helper_mode@ == "exit"@) && forall|i: int|
            0 <= i < config.tunnels@.len() ==> tunnel_error(i, #[trigger] config.tunnels@[i]) is None,
{
    lemma_tunnels_error(config.tunnels@, 0);
}

proof fn lemma_tunnels_error(tunnels: Seq<TunnelConfig>, index: int)
    requires
        0 <= index,
    ensures
        tunnels_error(tunnels, index) is None <==> forall|i: int|
            index <= i < tunnels.len() ==> tunnel_error(i, #[trigger] tunnels[i]) is None,
    decreases tunnels.len() - index,
{
    if index < tunnels.len() {
        lemma_tunnels_error(tunnels, index + 1);
    }
}

/// A name that is made from the tunnel ID is never too long.
pub proof fn law_default_name_fits(config: TunnelConfig)
    requires
        config.iface_name is None,
    ensures
        iface_name_of(config).len() <= 9,
        encode_utf8(iface_name_of(config)).len() <= MAX_IFACE_NAME_LEN,
{
    let name = iface_name_of(config);
    let digits = decimal(config.tunnel_id as nat);
    reveal_strlit("eoip");
    reveal_with_fuel(decimal, 6);
    law_decimal_reads_back(config.tunnel_id as nat);
    assert(is_ascii_chars(name)) by {
        assert forall|i: int| 0 <= i < name.len() implies 0 <= (#[trigger] name[i]) as nat
            <= 127 by {
            if i >= 4 {
                assert(name[i] == digits[i - 4]);
            }
        }
    }
    is_ascii_chars_encode_utf8(name);
}

/// The text of a configuration error; `local` and `remote` are the addresses
/// of the tunnel in question as text.
pub open spec fn config_error_text(
    error: ConfigError,
    local: Seq<char>,
    remote: Seq<char>,
) -> Seq<char> {
    match error {
        ConfigError::HelperMode(mode) => "helper_mode must be 'persist' or 'exit', got '"@ + mode@
            + "'"@,
        ConfigError::TunnelIdTooLarge { index, tunnel_id } => "tunnel["@ + decimal(index as nat)
            + "]: tunnel_id "@ + decimal(tunnel_id as nat) + " exceeds EoIPv6 maximum of 4095"@,
        ConfigError::MixedAddressFamilies { index, .. } => "tunnel["@ + decimal(index as nat)
            + "]: local ("@ + local + ") and remote ("@ + remote
            + ") must be same address family"@,
        ConfigError::IfaceNameTooLong { index, name } => "tunnel["@ + decimal(index as nat)
            + "]: iface_name '"@ + name@ + "' exceeds 15 chars (Linux IFNAMSIZ)"@,
    }
}

impl ConfigError {
    /// The text of the error; `local` and `remote` are the addresses of the
    /// tunnel in question as text.
    pub fn message(&self, local: &str, remote: &str) -> (text: String)
        ensures
            text@ == config_error_text(*self, local@, remote@),
    {
        match self {
            ConfigError::HelperMode(mode) => {
                let mut text = String::from_str("helper_mode must be 'persist' or 'exit', got '");
                text.append(mode.as_str());
                text.append("'");
                text
            },
            ConfigError::TunnelIdTooLarge { index, tunnel_id } => {
                let mut text = String::from_str("tunnel[");
                text.append(to_decimal(*index as u64).as_str());
                text.append("]: tunnel_id ");
                text.append(to_decimal(*tunnel_id as u64).as_str());
                text.append(" exceeds EoIPv6 maximum of 4095");
                text
            },
            ConfigError::MixedAddressFamilies { index, .. } => {
                let mut text = String::from_str("tunnel[");
                text.append(to_decimal(*index as u64).as_str());
                text.append("]: local (");
                text.append(local);
                text.append(") and remote (");
                text.append(remote);
                text.append(") must be same address family");
                text
            },
            ConfigError::IfaceNameTooLong { index, name } => {
                let mut text = String::from_str("tunnel[");
                text.append(to_decimal(*index as u64).as_str());
                text.append("]: iface_name '");
                text.append(name.as_str());
                text.append("' exceeds 15 chars (Linux IFNAMSIZ)");
                text
            },
        }
    }
}

/// A tunnel is refused exactly if an IPv6 tunnel's ID is above 4095, if its two
/// addresses are of different families, or if its name takes more than 15 bytes,
/// and the first of these that holds is reported, with the tunnel's place and what
/// is wrong with it.
pub proof fn law_what_is_wrong_with_a_tunnel(index: usize, tunnel: TunnelConfig)
    ensures
        ({
            let error = tunnel_error(index as int, tunnel);
            let id_too_large = tunnel.local is V6 && tunnel.tunnel_id > 4095;
            let mixed = !(tunnel.local is V4 && tunnel.remote is V4 || tunnel.local is V6
                && tunnel.remote is V6);
            let name_too_long = tunnel.iface_name is Some && encode_utf8(
                tunnel.iface_name->0@,
            ).len() > 15;
            &&& error is None <==> !id_too_large && !mixed && !name_too_long
            &&& id_too_large ==> error == Some(
                ConfigError::TunnelIdTooLarge { index, tunnel_id: tunnel.tunnel_id },
            )
            &&& !id_too_large && mixed ==> error == Some(
                ConfigError::MixedAddressFamilies {
                    index,
                    local: tunnel.local,
                    remote: tunnel.remote,
                },
            )
            &&& !id_too_large && !mixed && name_too_long ==> error == Some(
                ConfigError::IfaceNameTooLong { index, name: tunnel.iface_name->0 },
            )
        }),
{
}

/// The first tunnel that is refused is the one that is reported, unless the helper
/// mode is already wrong.
pub proof fn law_first_error_is_reported(config: Config, i: int)
    requires
        0 <= i < config.tunnels@.len(),
        forall|j: int|
            0 <= j < i ==> tunnel_error(j, #[trigger] config.tunnels@[j]) is None,
        tunnel_error(i, config.tunnels@[i]) is Some,
    ensures
        config.daemon.helper_mode@ == "persist"@ || config.daemon.helper_mode@ == "exit"@
            ==> config_error(config) == tunnel_error(i, config.tunnels@[i]),
        config.daemon.helper_mode@ != "persist"@ && config.daemon.helper_mode@ != "exit"@
            ==> config_error(config) == Some(ConfigError::HelperMode(config.daemon.helper_mode)),
{
    lemma_first_error(config.tunnels@, 0, i);
}

proof fn lemma_first_error(tunnels: Seq<TunnelConfig>, from: int, i: int)
    requires
        0 <= from <= i < tunnels.len(),
        forall|j: int| from <= j < i ==> tunnel_error(j, #[trigger] tunnels[j]) is None,
        tunnel_error(i, tunnels[i]) is Some,
    ensures
        tunnels_error(tunnels, from) == tunnel_error(i, tunnels[i]),
    decreases i - from,
{
    if from < i {
        assert(tunnel_error(from, tunnels[from]) is None);
        lemma_first_error(tunnels, from + 1, i);
    }
}

/// A tunnel's interface has the configured name, or else `eoip` and the tunnel ID,
/// so that tunnels without a name have different ones if their IDs differ.
pub proof fn law_interface_names(config: TunnelConfig, other: TunnelConfig)
    ensures
        config.iface_name matches Some(name) ==> iface_name_of(config) == name@,
        config.iface_name is None ==> iface_name_of(config) == "eoip"@ + decimal(
            config.tunnel_id as nat,
        ),
        config.iface_name is None && other.iface_name is None && config.tunnel_id
            != other.tunnel_id ==> iface_name_of(config) != iface_name_of(other),
{
    if config.iface_name is None && other.iface_name is None && iface_name_of(config)
        == iface_name_of(other) {
        let a = iface_name_of(config);
        let b = iface_name_of(other);
        let head = "eoip"@;
        assert(a.subrange(head.len() as int, a.len() as int) =~= decimal(config.tunnel_id as nat));
        assert(b.subrange(head.len() as int, b.len() as int) =~= decimal(other.tunnel_id as nat));
        law_decimal_reads_back(config.tunnel_id as nat);
        law_decimal_reads_back(other.tunnel_id as nat);
    }
}

/// An error's text names the tunnel by its place, and says what is wrong with it.
pub proof fn law_config_error_text(
    index: usize,
    tunnel_id: u16,
    addrs: (IpAddr, IpAddr),
    name: String,
    local: Seq<char>,
    remote: Seq<char>,
)
    ensures
        config_error_text(ConfigError::HelperMode(name), local, remote)
            == "helper_mode must be 'persist' or 'exit', got '"@ + name@ + "'"@,
        config_error_text(ConfigError::TunnelIdTooLarge { index, tunnel_id }, local, remote)
            == "tunnel["@ + decimal(index as nat) + "]: tunnel_id "@ + decimal(tunnel_id as nat)
            + " exceeds EoIPv6 maximum of 4095"@,
        config_error_text(
            ConfigError::MixedAddressFamilies { index, local: addrs.0, remote: addrs.1 },
            local,
            remote,
        ) == "tunnel["@ + decimal(index as nat) + "]: local ("@ + local + ") and remote ("@ + remote
            + ") must be same address family"@,
        config_error_text(ConfigError::IfaceNameTooLong { index, name }, local, remote)
            == "tunnel["@ + decimal(index as nat) + "]: iface_name '"@ + name@
            + "' exceeds 15 chars (Linux IFNAMSIZ)"@,
{
}

} // verus!
