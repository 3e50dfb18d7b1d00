//! Management API: requests checked, tunnels and statistics described. The
//! server, and the text of addresses, are the caller's.

use crate::addr::DemuxKey;
use crate::addr::IpAddr;
use crate::config::iface_name_of;
use crate::config::TunnelConfig;
use crate::text::decimal;
use crate::text::to_decimal;
use crate::tunnel::handle::snapshot_of;
use crate::tunnel::handle::TunnelHandle;
use crate::tunnel::handle::TunnelSnapshot;
use crate::tunnel::lifecycle::TunnelState;
use crate::tunnel::manager::has_tunnel;
use crate::tunnel::registry::asked_for;
use crate::tunnel::registry::law_found_iff_registered;
use crate::tunnel::registry::listed;
use crate::tunnel::registry::lists;
use crate::tunnel::registry::TunnelRegistry;
use crate::tunnel::stats::TunnelStats;
use vstd::prelude::*;
use vstd::string::*;

verus! {

/// The tunnel ID in a request: its lower 16 bits.
pub open spec fn low_16_bits(n: u32) -> u16 {
    (n % 0x1_0000) as u16
}

/// The lower 32 bits of a number of seconds.
pub open spec fn low_32_bits(n: u64) -> u32 {
    (n % 0x1_0000_0000) as u32
}

/// The tunnel ID in a request: its lower 16 bits.
pub fn request_tunnel_id(tunnel_id: u32) -> (id: u16)
    ensures
        id == low_16_bits(tunnel_id),
{
    (tunnel_id % 0x1_0000) as u16
}

/// Why a request is refused.
#[derive(Debug)]
pub enum ApiError {
    InvalidArgument(String),
    NotFound(String),
}

/// A request to create a tunnel.
#[derive(Debug)]
pub struct CreateTunnelRequest {
    pub tunnel_id: u32,
    pub local_addr: String,
    pub remote_addr: String,
    pub iface_name: String,
    pub mtu: u32,
}

/// `config` is that of the tunnel which a request asks for.
pub open spec fn config_matches_request(
    config: TunnelConfig,
    request: CreateTunnelRequest,
    local: IpAddr,
    remote: IpAddr,
) -> bool {
    &&& config.tunnel_id == low_16_bits(request.tunnel_id)
    &&& config.local == local
    &&& config.remote == remote
    &&& config.iface_name == (if request.iface_name@.len() == 0 {
        None
    } else {
        Some(request.iface_name)
    })
    &&& config.mtu == (if request.mtu == 0 {
        1458
    } else {
        low_16_bits(request.mtu)
    })
    &&& config.enabled
    &&& config.keepalive_interval_secs == 10
    &&& config.keepalive_timeout_secs == 100
}

/// The configuration of the tunnel that a request asks for. `local` and
/// `remote` are the request's addresses, `None` where they are not addresses.
pub fn tunnel_config_from_request(
    request: CreateTunnelRequest,
    local: Option<IpAddr>,
    remote: Option<IpAddr>,
) -> (result: Result<TunnelConfig, ApiError>)
    ensures
        result is Ok <==> local is Some && remote is Some,
        result matches Ok(config) ==> config_matches_request(config, request, local->0, remote->0),
        result matches Err(error) ==> {
            &&& error is InvalidArgument
            &&& error->InvalidArgument_0@ == (if local is None {
                "invalid local_addr: "@ + request.local_addr@
            } else {
                "invalid remote_addr: "@ + request.remote_addr@
            })
        },
{
    let local = match local {
        Some(addr) => addr,
        None => {
            let mut text = String::from_str("invalid local_addr: ");
            text.append(request.local_addr.as_str());
            return Err(ApiError::InvalidArgument(text));
        },
    };
    let remote = match remote {
        Some(addr) => addr,
        None => {
            let mut text = String::from_str("invalid remote_addr: ");
            text.append(request.remote_addr.as_str());
            return Err(ApiError::InvalidArgument(text));
        },
    };
    let mtu: u16 = if request.mtu == 0 {
        1458
    } else {
        (request.mtu % 0x1_0000) as u16
    };
    let tunnel_id: u16 = request_tunnel_id(request.tunnel_id);
    let iface_name = if request.iface_name.as_str().is_empty() {
        None
    } else {
        Some(request.iface_name)
    };
    Ok(
        TunnelConfig {
            tunnel_id,
            local,
            remote,
            iface_name,
            mtu,
            enabled: true,
            keepalive_interval_secs: 10,
            keepalive_timeout_secs: 100,
        },
    )
}

/// A tunnel as the API shows it.
#[derive(Debug)]
pub struct TunnelInfo {
    pub tunnel_id: u32,
    pub local: IpAddr,
    pub remote: IpAddr,
    pub iface_name: String,
    pub mtu: u32,
    pub enabled: bool,
    pub state: TunnelState,
    pub keepalive_interval_secs: u32,
    pub keepalive_timeout_secs: u32,
}

/// `info` describes the tunnel with this key and state.
pub open spec fn describes(info: TunnelInfo, key: DemuxKey, tunnel: TunnelSnapshot) -> bool {
    &&& info.tunnel_id == tunnel.config.tunnel_id
    &&& info.local == tunnel.config.local
    &&& info.remote == key.peer_addr
    &&& info.iface_name@ == iface_name_of(tunnel.config)
    &&& info.mtu == tunnel.config.mtu
    &&& info.enabled == tunnel.config.enabled
    &&& info.state == tunnel.state
    &&& info.keepalive_interval_secs == low_32_bits(tunnel.config.keepalive_interval_secs)
    &&& info.keepalive_timeout_secs == low_32_bits(tunnel.config.keepalive_timeout_secs)
}

/// Describe a tunnel.
pub fn tunnel_info(key: &DemuxKey, tunnel: &TunnelSnapshot) -> (info: TunnelInfo)
    ensures
        describes(info, *key, *tunnel),
{
    TunnelInfo {
        tunnel_id: tunnel.config.tunnel_id as u32,
        local: tunnel.config.local,
        remote: key.peer_addr,
        iface_name: tunnel.config.effective_iface_name(),
        mtu: tunnel.config.mtu as u32,
        enabled: tunnel.config.enabled,
        state: tunnel.state,
        keepalive_interval_secs: (tunnel.config.keepalive_interval_secs % 0x1_0000_0000) as u32,
        keepalive_timeout_secs: (tunnel.config.keepalive_timeout_secs % 0x1_0000_0000) as u32,
    }
}

/// The text for a tunnel that is not there.
pub open spec fn not_found_text(tid: u16) -> Seq<char> {
    "tunnel "@ + decimal(tid as nat) + " not found"@
}

fn not_found(tid: u16) -> (error: ApiError)
    ensures
        error is NotFound,
        error->NotFound_0@ == not_found_text(tid),
{
    let mut text = String::from_str("tunnel ");
    text.append(to_decimal(tid as u64).as_str());
    text.append(" not found");
    ApiError::NotFound(text)
}

/// `key` and `tunnel` are a registered tunnel and its plain state.
pub open spec fn registered(
    map: Map<(u16, u8, u128), TunnelHandle>,
    key: DemuxKey,
    tunnel: TunnelSnapshot,
) -> bool {
    &&& map.dom().contains(key@)
    &&& tunnel == snapshot_of(map[key@])
}

/// A tunnel of the requested ID. Of several with different peers, any.
fn find_tunnel(registry: &TunnelRegistry, tunnel_id: u32) -> (result: Result<
    (DemuxKey, TunnelSnapshot),
    ApiError,
>)
    requires
        registry.wf(),
    ensures
        result is Ok <==> has_tunnel(registry@, low_16_bits(tunnel_id)),
        result matches Ok(found) ==> registered(registry@, found.0, found.1)
            && found.0.tunnel_id == low_16_bits(tunnel_id),
        result matches Err(error) ==> error is NotFound && error->NotFound_0@ == not_found_text(
            low_16_bits(tunnel_id),
        ),
{
    let tid: u16 = request_tunnel_id(tunnel_id);
    let mut entries = registry.find_by_tunnel_id(tid);
    proof {
        law_found_iff_registered(entries@, registry@, tid);
    }
    if entries.len() == 0 {
        return Err(not_found(tid));
    }
    let ghost first = entries@[0];
    proof {
        assert(registry@.dom().contains(first.0@));
    }
    let entry = entries.swap_remove(0);
    assert(entry == first);
    Ok(entry)
}

/// Show a tunnel of the requested ID. Of several with different peers, any.
pub fn get_tunnel(registry: &TunnelRegistry, tunnel_id: u32) -> (result: Result<
    TunnelInfo,
    ApiError,
>)
    requires
        registry.wf(),
    ensures
        result is Ok <==> has_tunnel(registry@, low_16_bits(tunnel_id)),
        result matches Ok(info) ==> exists|key: DemuxKey, tunnel: TunnelSnapshot| #[trigger]
            registered(registry@, key, tunnel) && key.tunnel_id == low_16_bits(tunnel_id)
                && describes(info, key, tunnel),
        result matches Err(error) ==> error is NotFound && error->NotFound_0@ == not_found_text(
            low_16_bits(tunnel_id),
        ),
{
    match find_tunnel(registry, tunnel_id) {
        Ok((key, tunnel)) => {
            let info = tunnel_info(&key, &tunnel);
            assert(registered(registry@, key, tunnel));
            Ok(info)
        },
        Err(error) => Err(error),
    }
}

/// `infos` describes the listed tunnels one by one.
pub open spec fn describes_all(
    infos: Seq<TunnelInfo>,
    list: Seq<(DemuxKey, TunnelSnapshot)>,
) -> bool {
    &&& infos.len() == list.len()
    &&& forall|i: int|
        0 <= i < infos.len() ==> describes(#[trigger] infos[i], list[i].0, list[i].1)
}

/// Show every tunnel, in any order.
pub fn list_tunnels(registry: &TunnelRegistry) -> (infos: Vec<TunnelInfo>)
    requires
        registry.wf(),
    ensures
        infos@.len() == registry@.dom().len(),
        exists|list: Seq<(DemuxKey, TunnelSnapshot)>| #[trigger]
            lists(list, registry@, None) && describes_all(infos@, list),
{
    let list = registry.iter();
    let mut infos: Vec<TunnelInfo> = Vec::new();
    let mut i: usize = 0;
    while i < list.len()
        invariant
            i <= list@.len(),
            infos@.len() == i,
            forall|j: int|
                0 <= j < i ==> describes(#[trigger] infos@[j], list@[j].0, list@[j].1),
        decreases list@.len() - i,
    {
        infos.push(tunnel_info(&list[i].0, &list[i].1));
        i = i + 1;
    }
    assert(lists(list@, registry@, None) && describes_all(infos@, list@));
    infos
}

/// A tunnel's counters as the API shows them.
#[derive(Debug, Clone, Copy, PartialEq, Eq, Structural)]
pub struct StatsInfo {
    pub tunnel_id: u32,
    pub stats: TunnelStats,
}

/// Show the counters of a tunnel of the requested ID. Of several with different
/// peers, any.
pub fn get_stats(registry: &TunnelRegistry, tunnel_id: u32) -> (result: Result<
    StatsInfo,
    ApiError,
>)
    requires
        registry.wf(),
    ensures
        result is Ok <==> has_tunnel(registry@, low_16_bits(tunnel_id)),
        result matches Ok(info) ==> info.tunnel_id == low_16_bits(tunnel_id) && exists|
            key: DemuxKey,
            tunnel: TunnelSnapshot,
        | #[trigger]
            registered(registry@, key, tunnel) && key.tunnel_id == low_16_bits(tunnel_id)
                && info.stats == tunnel.stats,
        result matches Err(error) ==> error is NotFound && error->NotFound_0@ == not_found_text(
            low_16_bits(tunnel_id),
        ),
{
    match find_tunnel(registry, tunnel_id) {
        Ok((key, tunnel)) => {
            assert(registered(registry@, key, tunnel));
            Ok(
                StatsInfo {
                    tunnel_id: request_tunnel_id(tunnel_id) as u32,
                    stats: tunnel.stats,
                },
            )
        },
        Err(error) => Err(error),
    }
}

/// Counters of all tunnels together. Sums wrap around.
#[derive(Debug, Clone, Copy, PartialEq, Eq, Structural)]
pub struct GlobalStats {
    pub active_tunnels: u32,
    pub stale_tunnels: u32,
    pub total_tx_packets: u64,
    pub total_rx_packets: u64,
    pub total_tx_bytes: u64,
    pub total_rx_bytes: u64,
}

/// The counters of no tunnel.
pub open spec fn no_totals() -> GlobalStats {
    GlobalStats {
        active_tunnels: 0,
        stale_tunnels: 0,
        total_tx_packets: 0,
        total_rx_packets: 0,
        total_tx_bytes: 0,
        total_rx_bytes: 0,
    }
}

/// The counters with one more tunnel.
pub open spec fn totals_with(totals: GlobalStats, tunnel: TunnelSnapshot) -> GlobalStats {
    GlobalStats {
        active_tunnels: totals.active_tunnels.wrapping_add(
            if tunnel.state is Active {
                1u32
            } else {
                0u32
            },
        ),
        stale_tunnels: totals.stale_tunnels.wrapping_add(
            if tunnel.state is Stale {
                1u32
            } else {
                0u32
            },
        ),
        total_tx_packets: totals.total_tx_packets.wrapping_add(tunnel.stats.tx_packets),
        total_rx_packets: totals.total_rx_packets.wrapping_add(tunnel.stats.rx_packets),
        total_tx_bytes: totals.total_tx_bytes.wrapping_add(tunnel.stats.tx_bytes),
        total_rx_bytes: totals.total_rx_bytes.wrapping_add(tunnel.stats.rx_bytes),
    }
}

/// The counters of the listed tunnels together.
pub open spec fn totals_of(list: Seq<(DemuxKey, TunnelSnapshot)>) -> GlobalStats
    decreases list.len(),
{
    if list.len() == 0 {
        no_totals()
    } else {
        totals_with(totals_of(list.drop_last()), list.last().1)
    }
}

/// Show the counters of all tunnels together.
pub fn get_global_stats(registry: &TunnelRegistry) -> (totals: GlobalStats)
    requires
        registry.wf(),
    ensures
        forall|list: Seq<(DemuxKey, TunnelSnapshot)>| #[trigger]
            lists(list, registry@, None) ==> totals == totals_of(list),
        exists|list: Seq<(DemuxKey, TunnelSnapshot)>| #[trigger]
            lists(list, registry@, None) && totals == totals_of(list),
{
    let list = registry.iter();
    let mut totals = GlobalStats {
        active_tunnels: 0,
        stale_tunnels: 0,
        total_tx_packets: 0,
        total_rx_packets: 0,
        total_tx_bytes: 0,
        total_rx_bytes: 0,
    };
    let mut i: usize = 0;
    assert(list@.subrange(0, 0) =~= Seq::empty());
    while i < list.len()
        invariant
            i <= list@.len(),
            totals == totals_of(list@.subrange(0, i as int)),
        decreases list@.len() - i,
    {
        let tunnel = &list[i].1;
        let active: u32 = if tunnel.state == TunnelState::Active {
            1
        } else {
            0
        };
        let stale: u32 = if tunnel.state == TunnelState::Stale {
            1
        } else {
            0
        };
        totals = GlobalStats {
            active_tunnels: totals.active_tunnels.wrapping_add(active),
            stale_tunnels: totals.stale_tunnels.wrapping_add(stale),
            total_tx_packets: totals.total_tx_packets.wrapping_add(tunnel.stats.tx_packets),
            total_rx_packets: totals.total_rx_packets.wrapping_add(tunnel.stats.rx_packets),
            total_tx_bytes: totals.total_tx_bytes.wrapping_add(tunnel.stats.tx_bytes),
            total_rx_bytes: totals.total_rx_bytes.wrapping_add(tunnel.stats.rx_bytes),
        };
        i = i + 1;
        assert(list@.subrange(0, i as int).drop_last() =~= list@.subrange(0, i - 1));
    }
    assert(list@.subrange(0, i as int) =~= list@);
    proof {
        assert forall|other: Seq<(DemuxKey, TunnelSnapshot)>| #[trigger]
            lists(other, registry@, None) implies totals == totals_of(other) by {
            law_totals_independent_of_order(list@, other, registry@);
        }
    }
    totals
}

/// Adding two tunnels in either order gives the same.
proof fn lemma_totals_commute(totals: GlobalStats, a: TunnelSnapshot, b: TunnelSnapshot)
    ensures
        totals_with(totals_with(totals, a), b) == totals_with(totals_with(totals, b), a),
{
}

/// Any entry of a list can be counted last.
proof fn lemma_totals_remove(list: Seq<(DemuxKey, TunnelSnapshot)>, at: int)
    requires
        0 <= at < list.len(),
    ensures
        totals_of(list) == totals_with(totals_of(list.remove(at)), list[at].1),
    decreases list.len(),
{
    if at == list.len() - 1 {
        assert(list.remove(at) =~= list.drop_last());
    } else {
        let front = list.drop_last();
        lemma_totals_remove(front, at);
        assert(list.remove(at).drop_last() =~= front.remove(at));
        assert(list.remove(at).last() == list.last());
        lemma_totals_commute(totals_of(front.remove(at)), list[at].1, list.last().1);
    }
}

/// A list without one entry is a list of the registry without that tunnel.
proof fn lemma_lists_remove(
    list: Seq<(DemuxKey, TunnelSnapshot)>,
    map: Map<(u16, u8, u128), TunnelHandle>,
    at: int,
)
    requires
        lists(list, map, None),
        0 <= at < list.len(),
    ensures
        lists(list.remove(at), map.remove(list[at].0@), None),
{
    let rest = list.remove(at);
    let code = list[at].0@;
    assert forall|i: int| 0 <= i < rest.len() implies map.remove(code).dom().contains(
        (#[trigger] rest[i]).0@,
    ) && rest[i].1 == snapshot_of(map.remove(code)[rest[i].0@]) by {
        let j = if i < at {
            i
        } else {
            i + 1
        };
        assert(rest[i] == list[j]);
        assert(map.dom().contains(list[j].0@));
    }
    assert forall|i: int, j: int| 0 <= i < j < rest.len() implies (#[trigger] rest[i]).0@ != (
    #[trigger] rest[j]).0@ by {
        let k = if i < at {
            i
        } else {
            i + 1
        };
        let l = if j < at {
            j
        } else {
            j + 1
        };
        assert(rest[i] == list[k] && rest[j] == list[l]);
    }
    assert forall|other: (u16, u8, u128)| #[trigger]
        map.remove(code).dom().contains(other) && asked_for(other, None) implies listed(
        rest,
        other,
    ) by {
        assert(map.dom().contains(other));
        let k = choose|k: int| 0 <= k < list.len() && (#[trigger] list[k]).0@ == other;
        let i = if k < at {
            k
        } else {
            k - 1
        };
        assert(rest[i] == list[k]);
    }
}

/// The counters of all tunnels together do not depend on the order in which
/// the tunnels are listed.
pub proof fn law_totals_independent_of_order(
    a: Seq<(DemuxKey, TunnelSnapshot)>,
    b: Seq<(DemuxKey, TunnelSnapshot)>,
    map: Map<(u16, u8, u128), TunnelHandle>,
)
    requires
        lists(a, map, None),
        lists(b, map, None),
    ensures
        totals_of(a) == totals_of(b),
    decreases a.len(),
{
    if a.len() == 0 {
        if b.len() > 0 {
            assert(map.dom().contains(b[0].0@));
            assert(asked_for(b[0].0@, None));
            assert(listed(a, b[0].0@));
        }
    } else {
        let at = a.len() - 1;
        let code = a[at].0@;
        assert(map.dom().contains(code));
        assert(asked_for(code, None));
        assert(listed(b, code));
        let k = choose|k: int| 0 <= k < b.len() && (#[trigger] b[k]).0@ == code;
        lemma_lists_remove(a, map, at);
        lemma_lists_remove(b, map, k);
        law_totals_independent_of_order(a.remove(at), b.remove(k), map.remove(code));
        lemma_totals_remove(a, at);
        lemma_totals_remove(b, k);
    }
}

/// A tunnel that was created on request is shown with what was asked for.
pub proof fn law_created_tunnel_is_shown(
    request: CreateTunnelRequest,
    local: IpAddr,
    remote: IpAddr,
    key: DemuxKey,
    tunnel: TunnelSnapshot,
    info: TunnelInfo,
)
    requires
        config_matches_request(tunnel.config, request, local, remote),
        key.tunnel_id == tunnel.config.tunnel_id,
        key.peer_addr == tunnel.config.remote,
        describes(info, key, tunnel),
    ensures
        info.tunnel_id == low_16_bits(request.tunnel_id),
        info.local == local,
        info.remote == remote,
        request.iface_name@.len() > 0 ==> info.iface_name@ == request.iface_name@,
        0 < request.mtu <= u16::MAX ==> info.mtu == request.mtu,
        info.enabled,
        info.keepalive_interval_secs == 10,
        info.keepalive_timeout_secs == 100,
{
}

/// The lower bits of a number are the number itself if it fits, and differ from it
/// by a multiple of what fits.
pub proof fn law_low_bits(m: u32, n: u64)
    ensures
        m <= 0xffff ==> low_16_bits(m) == m,
        (m - low_16_bits(m)) % 0x1_0000 == 0,
        n <= 0xffff_ffff ==> low_32_bits(n) == n,
        (n - low_32_bits(n)) % 0x1_0000_0000 == 0,
{
}

/// A tunnel that is asked for gets the ID, the addresses, the name and the MTU that
/// the request gives, 1458 as MTU if it gives none, and keepalives every 10 seconds
/// with a timeout of 100; it is enabled.
pub proof fn law_requested_tunnel(
    config: TunnelConfig,
    request: CreateTunnelRequest,
    local: IpAddr,
    remote: IpAddr,
)
    requires
        config_matches_request(config, request, local, remote),
    ensures
        request.tunnel_id <= 0xffff ==> config.tunnel_id == request.tunnel_id,
        (request.tunnel_id - config.tunnel_id) % 0x1_0000 == 0,
        config.local == local,
        config.remote == remote,
        request.iface_name@.len() > 0 ==> config.iface_name == Some(request.iface_name),
        request.iface_name@.len() == 0 ==> config.iface_name is None,
        request.mtu == 0 ==> config.mtu == 1458,
        0 < request.mtu <= 0xffff ==> config.mtu == request.mtu,
        config.enabled,
        config.keepalive_interval_secs == 10,
        config.keepalive_timeout_secs == 100,
{
}

/// A tunnel is shown with its configuration, its peer and its present state.
pub proof fn law_shown_tunnel(info: TunnelInfo, key: DemuxKey, tunnel: TunnelSnapshot)
    requires
        describes(info, key, tunnel),
    ensures
        info.tunnel_id == tunnel.config.tunnel_id,
        info.local == tunnel.config.local,
        info.remote == key.peer_addr,
        info.state == tunnel.state,
        info.mtu == tunnel.config.mtu,
        info.enabled == tunnel.config.enabled,
        tunnel.config.iface_name matches Some(name) ==> info.iface_name@ == name@,
        tunnel.config.iface_name is None ==> info.iface_name@ == "eoip"@ + decimal(
            tunnel.config.tunnel_id as nat,
        ),
        tunnel.config.keepalive_interval_secs <= 0xffff_ffff ==> info.keepalive_interval_secs
            == tunnel.config.keepalive_interval_secs,
        tunnel.config.keepalive_timeout_secs <= 0xffff_ffff ==> info.keepalive_timeout_secs
            == tunnel.config.keepalive_timeout_secs,
{
}

/// What is shown of a registered tunnel is what its handle holds, and each tunnel
/// of a list is shown in its place.
pub proof fn law_shown_as_registered(
    map: Map<(u16, u8, u128), TunnelHandle>,
    key: DemuxKey,
    tunnel: TunnelSnapshot,
    infos: Seq<TunnelInfo>,
    list: Seq<(DemuxKey, TunnelSnapshot)>,
)
    ensures
        registered(map, key, tunnel) ==> map.dom().contains(key@) && tunnel.config
            == map[key@].config && tunnel.state == map[key@].state@ && tunnel.stats
            == map[key@].stats,
        describes_all(infos, list) ==> infos.len() == list.len() && forall|i: int|
            0 <= i < list.len() ==> describes(#[trigger] infos[i], list[i].0, list[i].1),
{
}

/// Each tunnel adds its own counters to the totals, and itself to the active or the
/// stale ones if it is active or stale; no tunnels have no totals.
pub proof fn law_totals_add_up(list: Seq<(DemuxKey, TunnelSnapshot)>, more: (DemuxKey, TunnelSnapshot))
    ensures
        ({
            let (before, after) = (totals_of(list), totals_of(list.push(more)));
            &&& after.total_tx_packets == before.total_tx_packets.wrapping_add(
                more.1.stats.tx_packets,
            )
            &&& after.total_rx_packets == before.total_rx_packets.wrapping_add(
                more.1.stats.rx_packets,
            )
            &&& after.total_tx_bytes == before.total_tx_bytes.wrapping_add(more.1.stats.tx_bytes)
            &&& after.total_rx_bytes == before.total_rx_bytes.wrapping_add(more.1.stats.rx_bytes)
            &&& more.1.state is Active ==> after.active_tunnels == before.active_tunnels.wrapping_add(
                1,
            )
            &&& !(more.1.state is Active) ==> after.active_tunnels == before.active_tunnels
            &&& more.1.state is Stale ==> after.stale_tunnels == before.stale_tunnels.wrapping_add(
                1,
            )
            &&& !(more.1.state is Stale) ==> after.stale_tunnels == before.stale_tunnels
        }),
        ({
            let none = totals_of(Seq::<(DemuxKey, TunnelSnapshot)>::empty());
            &&& none.active_tunnels == 0 && none.stale_tunnels == 0
            &&& none.total_tx_packets == 0 && none.total_rx_packets == 0
            &&& none.total_tx_bytes == 0 && none.total_rx_bytes == 0
        }),
{
    assert(list.push(more).drop_last() =~= list);
}

/// A tunnel that is not there is named by its ID.
pub proof fn law_not_found_text(tid: u16)
    ensures
        not_found_text(tid) == "tunnel "@ + decimal(tid as nat) + " not found"@,
{
}

} // verus!
