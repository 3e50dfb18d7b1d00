//! Laws of the operations on tunnels: their registry, their lifecycle, their
//! configuration, and what is shown of them.

use crate::addr::law_key_code_injective;
use crate::addr::DemuxKey;
use crate::addr::IpAddr;
use crate::api::get_stats;
use crate::api::get_tunnel;
use crate::api::law_requested_tunnel;
use crate::api::request_tunnel_id;
use crate::api::tunnel_config_from_request;
use crate::api::ApiError;
use crate::api::CreateTunnelRequest;
use crate::api::StatsInfo;
use crate::api::TunnelInfo;
use crate::config::default_batch_timeout_us;
use crate::config::default_channel_buffer;
use crate::config::default_enabled;
use crate::config::default_helper_mode;
use crate::config::default_high_water_mark;
use crate::config::default_keepalive_interval_secs;
use crate::config::default_keepalive_timeout_secs;
use crate::config::default_low_water_mark;
use crate::config::default_max_batch_size;
use crate::config::default_mtu;
use crate::config::default_rx_workers;
use crate::config::law_valid_iff_every_tunnel_is;
use crate::config::law_what_is_wrong_with_a_tunnel;
use crate::config::tunnel_error;
use crate::config::validate_config;
use crate::config::Config;
use crate::config::ConfigError;
use crate::config::TunnelConfig;
use crate::packet::buffer::law_pool_hands_out;
use crate::packet::buffer::law_pool_takes_back;
use crate::packet::buffer::BufferPool;
use crate::packet::buffer::PacketBuf;
use crate::packet::rx::CoarseClock;
use crate::packet::rx::MissLog;
use crate::startup::pool_size;
use crate::startup::register_configured;
use crate::startup::take_raw_sockets;
use crate::text::decimal;
use crate::tunnel::handle::law_fresh_handle;
use crate::tunnel::handle::RX_CHANNEL_CAP;
use crate::tunnel::handle::TunnelHandle;
use crate::tunnel::handle::TunnelSnapshot;
use crate::tunnel::lifecycle::AtomicTunnelState;
use crate::tunnel::lifecycle::TunnelState;
use crate::tunnel::manager::has_tunnel;
use crate::tunnel::manager::law_activation;
use crate::tunnel::manager::law_destroyed_tunnel_is_gone;
use crate::tunnel::manager::CreateRequest;
use crate::tunnel::manager::HelperReply;
use crate::tunnel::manager::ManagerError;
use crate::tunnel::manager::TunnelManager;
use crate::tunnel::registry::TunnelRegistry;
use crate::tunnel::stats::TunnelStats;
use vstd::prelude::*;
use vstd::utf8::*;

verus! {

/// The ways of the lifecycle: a request is granted if it starts from the state that
/// the cell holds and goes forward, from stale back to active, or down, and then the
/// cell holds the new state; else it is answered with the cell's own, which stays.
pub proof fn law_transition(from: TunnelState, to: TunnelState)
    ensures
        forall|cell: &mut AtomicTunnelState, result: Result<(), TunnelState>| #[trigger]
            call_ensures(AtomicTunnelState::transition, (cell, from, to), result) ==> ({
                let (before, after) = ((*cell)@, (*final(cell))@);
                let allowed = match to {
                    TunnelState::Initializing => false,
                    TunnelState::Configured => from is Initializing,
                    TunnelState::Active => from is Configured || from is Stale,
                    TunnelState::Stale => from is Active,
                    TunnelState::TearingDown => !(from is TearingDown) && !(from is Destroyed),
                    TunnelState::Destroyed => from is TearingDown,
                };
                &&& result is Ok <==> allowed && before == from
                &&& result is Ok ==> after == to
                &&& result is Err ==> after == before && result->Err_0 == before
            }),
{
}

/// The byte of a state stands for that state and no other.
pub proof fn law_state_bytes(state: TunnelState, byte: u8)
    requires
        call_ensures(TunnelState::code, (state,), byte),
    ensures
        byte <= 5,
        forall|back: Option<TunnelState>| #[trigger]
            call_ensures(TunnelState::from_u8, (byte,), back) ==> back == Some(state),
{
}

/// A received frame adds one packet and its bytes to what was received, and sets the
/// time of the last one; a sent one does so for what was sent; an error is counted
/// alone.
pub proof fn law_counting(bytes: u64, now_ms: i64)
    ensures
        forall|stats: &mut TunnelStats, nothing: ()| #[trigger]
            call_ensures(TunnelStats::record_rx, (stats, bytes, now_ms), nothing) ==> *final(stats)
                == (TunnelStats {
                rx_packets: (*stats).rx_packets.wrapping_add(1),
                rx_bytes: (*stats).rx_bytes.wrapping_add(bytes),
                last_rx_timestamp: now_ms,
                ..*stats
            }),
        forall|stats: &mut TunnelStats, nothing: ()| #[trigger]
            call_ensures(TunnelStats::record_tx, (stats, bytes, now_ms), nothing) ==> *final(stats)
                == (TunnelStats {
                tx_packets: (*stats).tx_packets.wrapping_add(1),
                tx_bytes: (*stats).tx_bytes.wrapping_add(bytes),
                last_tx_timestamp: now_ms,
                ..*stats
            }),
        forall|stats: &mut TunnelStats, nothing: ()| #[trigger]
            call_ensures(TunnelStats::record_rx_error, (stats,), nothing) ==> *final(stats) == (
            TunnelStats { rx_errors: (*stats).rx_errors.wrapping_add(1), ..*stats }),
{
}

/// A clock takes the reading once in 64 times, beginning with the first, and tells the
/// last one that it took.
pub proof fn law_clock_reading(reading: i64)
    ensures
        forall|clock: &mut CoarseClock, now_ms: i64| #[trigger]
            call_ensures(CoarseClock::timestamp_ms, (clock, reading), now_ms) ==> {
                &&& (*final(clock)).count == (*clock).count.wrapping_add(1)
                &&& (*clock).count % 64 == 0 ==> now_ms == reading
                &&& (*clock).count % 64 != 0 ==> now_ms == (*clock).cached_ms
                &&& (*final(clock)).cached_ms == now_ms
            },
{
}

/// Misses are counted, and the count is told at most once a second, whereupon it
/// begins anew.
pub proof fn law_misses(now_ms: u64)
    ensures
        forall|log: &mut MissLog, line: Option<u64>| #[trigger]
            call_ensures(MissLog::record, (log, now_ms), line) ==> ({
                let (before, after) = (*log, *final(log));
                &&& now_ms >= before.last_log_ms ==> (line is Some <==> now_ms - before.last_log_ms
                    > 1000)
                &&& line is Some ==> line->0 == before.count && after.count == 0
                    && after.last_log_ms == now_ms
                &&& line is None ==> after.count == before.count.wrapping_add(1)
                    && after.last_log_ms == before.last_log_ms
            }),
{
}

/// What is put into a buffer is what it holds, up to 1522 bytes.
pub proof fn law_fill(frame: &[u8])
    ensures
        forall|buf: &mut PacketBuf, nothing: ()| #[trigger]
            call_ensures(PacketBuf::fill, (buf, frame), nothing) ==> {
                &&& frame@.len() <= 1522 ==> (*final(buf))@ == frame@
                &&& frame@.len() > 1522 ==> (*final(buf))@ == frame@.subrange(0, 1522)
                &&& (*final(buf)).head() == 64
                &&& (*final(buf)).pooled() == (*buf).pooled()
            },
{
}

/// A pool hands out its idle buffers, the first one first, and new ones once there is
/// none.
pub proof fn law_pool_get()
    ensures
        forall|pool: &mut BufferPool, buf: PacketBuf| #[trigger]
            call_ensures(BufferPool::get, (pool,), buf) ==> ({
                let (before, after) = ((*pool)@, (*final(pool))@);
                &&& buf.head() == 64 && buf.size() == 0
                &&& buf.pooled() <==> before.len() > 0
                &&& before.len() == 0 ==> after.len() == 0
                &&& before.len() > 0 ==> after == before.subrange(1, before.len() as int)
                    && buf.storage() == before[0].storage()
            }),
{
    assert forall|pool: &mut BufferPool, buf: PacketBuf| #[trigger]
        call_ensures(BufferPool::get, (pool,), buf) implies ({
        let (before, after) = ((*pool)@, (*final(pool))@);
        &&& buf.head() == 64 && buf.size() == 0
        &&& buf.pooled() <==> before.len() > 0
        &&& before.len() == 0 ==> after.len() == 0
        &&& before.len() > 0 ==> after == before.subrange(1, before.len() as int) && buf.storage()
            == before[0].storage()
    }) by {
        law_pool_hands_out((*pool)@, buf);
    }
}

/// A pool takes its own buffers back, as long as there is room, and no others.
pub proof fn law_pool_put(buf: PacketBuf)
    ensures
        forall|pool: &mut BufferPool, nothing: ()| #[trigger]
            call_ensures(BufferPool::put, (pool, buf), nothing) ==> ({
                let (before, after) = ((*pool)@, (*final(pool))@);
                let room = before.len() < (*pool).bound();
                &&& !buf.pooled() || !room ==> after == before
                &&& buf.pooled() && room ==> {
                    &&& after.len() == before.len() + 1
                    &&& after.subrange(0, before.len() as int) == before
                    &&& after.last().storage() == buf.storage()
                    &&& after.last().head() == 64 && after.last().size() == 0
                }
            }),
{
    assert forall|pool: &mut BufferPool, nothing: ()| #[trigger]
        call_ensures(BufferPool::put, (pool, buf), nothing) implies ({
        let (before, after) = ((*pool)@, (*final(pool))@);
        let room = before.len() < (*pool).bound();
        &&& !buf.pooled() || !room ==> after == before
        &&& buf.pooled() && room ==> {
            &&& after.len() == before.len() + 1
            &&& after.subrange(0, before.len() as int) == before
            &&& after.last().storage() == buf.storage()
            &&& after.last().head() == 64 && after.last().size() == 0
        }
    }) by {
        let (before, after) = ((*pool)@, (*final(pool))@);
        law_pool_takes_back(before, (*pool).bound(), buf, after);
        if buf.pooled() && before.len() < (*pool).bound() {
            assert(after.subrange(0, before.len() as int) =~= before);
        }
    }
}

/// A tunnel that is registered is found under its key afterwards, one that is removed
/// is not, and every other key finds what it found before.
pub proof fn law_registered_is_found(
    key: DemuxKey,
    handle: TunnelHandle,
    other: DemuxKey,
    found: Option<TunnelSnapshot>,
)
    ensures
        forall|registry: &mut TunnelRegistry, previous: Option<TunnelHandle>| #[trigger]
            call_ensures(TunnelRegistry::insert, (registry, key, handle), previous) ==> {
                &&& previous is Some <==> (*registry)@.dom().contains(key@)
                &&& call_ensures(TunnelRegistry::get, (&*final(registry), &key), found)
                    ==> found is Some && found->0.config == handle.config && found->0.state
                    == handle.state@ && found->0.stats == handle.stats && found->0.actual_mtu
                    == handle.actual_mtu
                &&& other != key && call_ensures(
                    TunnelRegistry::get,
                    (&*final(registry), &other),
                    found,
                ) ==> (found is Some <==> (*registry)@.dom().contains(other@)) && (found is Some
                    ==> found->0.config == (*registry)@[other@].config)
            },
        forall|registry: &mut TunnelRegistry, removed: Option<(DemuxKey, TunnelHandle)>|
            #[trigger]
            call_ensures(TunnelRegistry::remove, (registry, &key), removed) ==> {
                &&& removed is Some <==> (*registry)@.dom().contains(key@)
                &&& removed is Some ==> removed == Some((key, (*registry)@[key@]))
                &&& call_ensures(TunnelRegistry::get, (&*final(registry), &key), found)
                    ==> found is None
                &&& other != key && call_ensures(
                    TunnelRegistry::get,
                    (&*final(registry), &other),
                    found,
                ) ==> (found is Some <==> (*registry)@.dom().contains(other@))
            },
{
    law_key_code_injective(key, key);
    if other != key && other@ == key@ {
        law_key_code_injective(other, key);
    }
}

/// A tunnel is created only if none has its ID, and is then registered under its ID
/// and its peer, with its configuration and an interface name of its own.
pub proof fn law_create<T>(config: TunnelConfig)
    ensures
        forall|manager: &mut TunnelManager<T>, result: Result<CreateRequest, ManagerError>|
            #[trigger]
            call_ensures(TunnelManager::<T>::begin_create, (manager, config), result) ==> ({
                let (before, after) = ((*manager).tunnels(), (*final(manager)).tunnels());
                &&& result is Err <==> exists|code: (u16, u8, u128)| #[trigger]
                    before.dom().contains(code) && code.0 == config.tunnel_id
                &&& result is Err ==> after == before && result->Err_0 == (
                ManagerError::AlreadyExists { tunnel_id: config.tunnel_id })
                &&& result is Ok ==> {
                    let key = result->Ok_0.key;
                    &&& key.tunnel_id == config.tunnel_id && key.peer_addr == config.remote
                    &&& after.dom() == before.dom().insert(key@)
                    &&& after[key@].config == config
                    &&& after[key@].state@ is Initializing
                    &&& after[key@].actual_mtu == 0
                    &&& config.iface_name is Some ==> result->Ok_0.iface_name@
                        == config.iface_name->0@
                    &&& config.iface_name is None ==> result->Ok_0.iface_name@ == "eoip"@ + decimal(
                        config.tunnel_id as nat,
                    )
                    &&& forall|code: (u16, u8, u128)|
                        #[trigger] before.dom().contains(code) && code != key@ ==> after[code]
                            == before[code]
                }
            }),
{
    assert forall|manager: &mut TunnelManager<T>, result: Result<CreateRequest, ManagerError>|
        #[trigger]
        call_ensures(TunnelManager::<T>::begin_create, (manager, config), result) implies ({
            let (before, after) = ((*manager).tunnels(), (*final(manager)).tunnels());
            &&& result is Err <==> exists|code: (u16, u8, u128)| #[trigger]
                before.dom().contains(code) && code.0 == config.tunnel_id
            &&& result is Err ==> after == before && result->Err_0 == (
            ManagerError::AlreadyExists { tunnel_id: config.tunnel_id })
            &&& result is Ok ==> {
                let key = result->Ok_0.key;
                &&& key.tunnel_id == config.tunnel_id && key.peer_addr == config.remote
                &&& after.dom() == before.dom().insert(key@)
                &&& after[key@].config == config
                &&& after[key@].state@ is Initializing
                &&& after[key@].actual_mtu == 0
                &&& config.iface_name is Some ==> result->Ok_0.iface_name@
                    == config.iface_name->0@
                &&& config.iface_name is None ==> result->Ok_0.iface_name@ == "eoip"@ + decimal(
                    config.tunnel_id as nat,
                )
                &&& forall|code: (u16, u8, u128)|
                    #[trigger] before.dom().contains(code) && code != key@ ==> after[code]
                        == before[code]
            }
        }) by {
        let (before, after) = ((*manager).tunnels(), (*final(manager)).tunnels());
        assert(has_tunnel(before, config.tunnel_id) <==> exists|code: (u16, u8, u128)| #[trigger]
            before.dom().contains(code) && code.0 == config.tunnel_id);
        if let Ok(request) = result {
            assert(after.dom() =~= before.dom().insert(request.key@));
            law_fresh_handle(after[request.key@], config, RX_CHANNEL_CAP as nat);
        }
    }
}

/// The tunnel of a request is dropped again unless the helper hands over a TAP device.
pub proof fn law_tap_reply<T>(key: DemuxKey, reply: HelperReply, has_fd: bool, debug: &str)
    ensures
        forall|manager: &mut TunnelManager<T>, result: Result<(), ManagerError>| #[trigger]
            call_ensures(
                TunnelManager::<T>::tap_replied,
                (manager, &key, reply, has_fd, debug),
                result,
            ) ==> ({
                let (before, after) = ((*manager).tunnels(), (*final(manager)).tunnels());
                &&& result is Ok <==> reply is TapCreated && has_fd
                &&& result is Ok ==> after == before
                &&& result is Err ==> !after.dom().contains(key@)
                &&& forall|code: (u16, u8, u128)|
                    #[trigger] before.dom().contains(code) && code != key@ ==> after.dom().contains(
                        code,
                    ) && after[code] == before[code]
            }),
{
}

/// A creation that is finished leaves the tunnel active, if it was being created, and
/// its task running under its ID.
pub proof fn law_finish<T>(key: DemuxKey, task: T)
    ensures
        forall|manager: &mut TunnelManager<T>, previous: Option<T>| #[trigger]
            call_ensures(TunnelManager::<T>::finish_create, (manager, &key, task), previous) ==> ({
                let (before, after) = ((*manager).tunnels(), (*final(manager)).tunnels());
                &&& (*final(manager)).running().dom().contains(key.tunnel_id)
                &&& (*final(manager)).running()[key.tunnel_id] == task
                &&& after.dom() == before.dom()
                &&& before.dom().contains(key@) && before[key@].state@ is Initializing
                    ==> after[key@].state@ is Active && after[key@].config == before[key@].config
                &&& forall|code: (u16, u8, u128)|
                    #[trigger] before.dom().contains(code) && code != key@ ==> after[code]
                        == before[code]
            }),
{
    assert forall|manager: &mut TunnelManager<T>, previous: Option<T>| #[trigger]
        call_ensures(TunnelManager::<T>::finish_create, (manager, &key, task), previous) implies ({
        let (before, after) = ((*manager).tunnels(), (*final(manager)).tunnels());
        &&& after.dom() == before.dom()
        &&& before.dom().contains(key@) && before[key@].state@ is Initializing
            ==> after[key@].state@ is Active && after[key@].config == before[key@].config
        &&& forall|code: (u16, u8, u128)|
            #[trigger] before.dom().contains(code) && code != key@ ==> after[code] == before[code]
    }) by {
        law_activation(
            (*manager).tunnels(),
            (*final(manager)).tunnels(),
            key,
        );
    }
}

/// A tunnel that is destroyed is no longer registered, nor is its task running, and
/// all others are as before; there is nothing to destroy exactly if none has the ID.
pub proof fn law_destroy<T>(tunnel_id: u16)
    ensures
        forall|
            manager: &mut TunnelManager<T>,
            result: (Option<T>, Result<Vec<(DemuxKey, TunnelHandle)>, ManagerError>),
        | #[trigger]
            call_ensures(TunnelManager::<T>::destroy_tunnel, (manager, tunnel_id), result) ==> ({
                let (before, after) = ((*manager).tunnels(), (*final(manager)).tunnels());
                &&& forall|code: (u16, u8, u128)| #[trigger]
                    after.dom().contains(code) <==> before.dom().contains(code) && code.0
                        != tunnel_id
                &&& forall|code: (u16, u8, u128)|
                    #[trigger] after.dom().contains(code) ==> after[code] == before[code]
                &&& !(*final(manager)).running().dom().contains(tunnel_id)
                &&& result.0 is Some <==> (*manager).running().dom().contains(tunnel_id)
                &&& result.1 is Ok <==> exists|code: (u16, u8, u128)| #[trigger]
                    before.dom().contains(code) && code.0 == tunnel_id
                &&& result.1 is Err ==> result.1->Err_0 == (ManagerError::NotFound { tunnel_id })
            }),
{
    assert forall|
        manager: &mut TunnelManager<T>,
        result: (Option<T>, Result<Vec<(DemuxKey, TunnelHandle)>, ManagerError>),
    | #[trigger]
        call_ensures(TunnelManager::<T>::destroy_tunnel, (manager, tunnel_id), result) implies ({
            let (before, after) = ((*manager).tunnels(), (*final(manager)).tunnels());
            &&& forall|code: (u16, u8, u128)| #[trigger]
                after.dom().contains(code) <==> before.dom().contains(code) && code.0
                    != tunnel_id
            &&& forall|code: (u16, u8, u128)|
                #[trigger] after.dom().contains(code) ==> after[code] == before[code]
            &&& !(*final(manager)).running().dom().contains(tunnel_id)
            &&& result.0 is Some <==> (*manager).running().dom().contains(tunnel_id)
            &&& result.1 is Ok <==> exists|code: (u16, u8, u128)| #[trigger]
                before.dom().contains(code) && code.0 == tunnel_id
            &&& result.1 is Err ==> result.1->Err_0 == (ManagerError::NotFound { tunnel_id })
        }) by {
        let (before, after) = ((*manager).tunnels(), (*final(manager)).tunnels());
        assert forall|code: (u16, u8, u128)| #[trigger]
            after.dom().contains(code) <==> before.dom().contains(code) && code.0 != tunnel_id by {
            law_destroyed_tunnel_is_gone(before, tunnel_id, code);
        }
        assert forall|code: (u16, u8, u128)| #[trigger] after.dom().contains(code) implies after[code]
            == before[code] by {
            law_destroyed_tunnel_is_gone(before, tunnel_id, code);
        }
        assert(has_tunnel(before, tunnel_id) <==> exists|code: (u16, u8, u128)| #[trigger]
            before.dom().contains(code) && code.0 == tunnel_id);
    }
}

/// A configuration is valid exactly if the helper persists or exits, and each tunnel
/// has addresses of one family, an ID of at most 4095 over IPv6, and an interface name
/// of at most 15 bytes.
pub proof fn law_validate(config: Config, result: Result<(), ConfigError>)
    requires
        call_ensures(validate_config, (&config,), result),
    ensures
        result is Ok <==> (config.daemon.helper_mode@ == "persist"@ || config.daemon.helper_mode@
            == "exit"@) && forall|i: int|
            0 <= i < config.tunnels@.len() ==> ({
                let tunnel = #[trigger] config.tunnels@[i];
                &&& tunnel.local is V6 ==> tunnel.remote is V6 && tunnel.tunnel_id <= 4095
                &&& tunnel.local is V4 ==> tunnel.remote is V4
                &&& tunnel.iface_name matches Some(name) ==> encode_utf8(name@).len() <= 15
            }),
{
    law_valid_iff_every_tunnel_is(config);
    assert forall|i: int| 0 <= i < config.tunnels@.len() implies (tunnel_error(
        i,
        #[trigger] config.tunnels@[i],
    ) is None <==> ({
        let tunnel = config.tunnels@[i];
        &&& tunnel.local is V6 ==> tunnel.remote is V6 && tunnel.tunnel_id <= 4095
        &&& tunnel.local is V4 ==> tunnel.remote is V4
        &&& tunnel.iface_name matches Some(name) ==> encode_utf8(name@).len() <= 15
    })) by {
        law_what_is_wrong_with_a_tunnel(i as usize, config.tunnels@[i]);
    }
}

/// A tunnel's interface has the name that it is given, or else one made of its ID.
pub proof fn law_iface_name(config: TunnelConfig, name: String)
    requires
        call_ensures(TunnelConfig::effective_iface_name, (&config,), name),
    ensures
        config.iface_name matches Some(given) ==> name@ == given@,
        config.iface_name is None ==> name@ == "eoip"@ + decimal(config.tunnel_id as nat),
{
}

/// The tunnel of a request has what is asked for, cut to 16 bits where it is a number,
/// and an MTU of 1458 if none is asked for; a request without valid addresses is
/// refused.
pub proof fn law_request(
    request: CreateTunnelRequest,
    local: Option<IpAddr>,
    remote: Option<IpAddr>,
    result: Result<TunnelConfig, ApiError>,
)
    requires
        call_ensures(tunnel_config_from_request, (request, local, remote), result),
    ensures
        result is Ok <==> local is Some && remote is Some,
        result matches Ok(config) ==> {
            &&& config.tunnel_id == request.tunnel_id as int % 0x1_0000
            &&& request.mtu == 0 ==> config.mtu == 1458
            &&& request.mtu != 0 ==> config.mtu == request.mtu as int % 0x1_0000
            &&& Some(config.local) == local
            &&& Some(config.remote) == remote
            &&& config.iface_name is Some <==> request.iface_name@.len() > 0
            &&& config.iface_name is Some ==> config.iface_name->0@ == request.iface_name@
            &&& config.enabled
            &&& config.keepalive_interval_secs == 10 && config.keepalive_timeout_secs == 100
        },
        local is None ==> result is Err && result->Err_0->InvalidArgument_0@
            == "invalid local_addr: "@ + request.local_addr@,
        local is Some && remote is None ==> result is Err && result->Err_0->InvalidArgument_0@
            == "invalid remote_addr: "@ + request.remote_addr@,
        forall|id: u16| #[trigger]
            call_ensures(request_tunnel_id, (request.tunnel_id,), id) ==> id
                == request.tunnel_id as int % 0x1_0000,
{
    if let Ok(config) = result {
        law_requested_tunnel(config, request, local->0, remote->0);
    }
}

/// A tunnel is shown, and its counters are, exactly if one has the ID that is asked
/// for, and then as it is registered.
pub proof fn law_show(
    registry: TunnelRegistry,
    tunnel_id: u32,
    shown: Result<TunnelInfo, ApiError>,
    counted: Result<StatsInfo, ApiError>,
)
    requires
        tunnel_id <= 0xffff,
        call_ensures(get_tunnel, (&registry, tunnel_id), shown),
        call_ensures(get_stats, (&registry, tunnel_id), counted),
    ensures
        shown is Ok <==> exists|code: (u16, u8, u128)| #[trigger]
            registry@.dom().contains(code) && code.0 == tunnel_id,
        counted is Ok <==> shown is Ok,
        shown matches Ok(info) ==> exists|code: (u16, u8, u128)| #[trigger]
            registry@.dom().contains(code) && code.0 == tunnel_id && info.local
                == registry@[code].config.local && info.mtu == registry@[code].config.mtu
                && info.state == registry@[code].state@ && info.tunnel_id
                == registry@[code].config.tunnel_id,
        counted matches Ok(info) ==> info.tunnel_id == tunnel_id && exists|code: (u16, u8, u128)|
            #[trigger]
            registry@.dom().contains(code) && code.0 == tunnel_id && info.stats
                == registry@[code].stats,
        shown is Err ==> shown->Err_0 is NotFound && shown->Err_0->NotFound_0@ == "tunnel "@
            + decimal(tunnel_id as nat) + " not found"@,
{
}

/// There are buffers for each tunnel's channel, for one at least, and 384 more.
pub proof fn law_pool_size(channel_buffer: usize, tunnels: usize, size: Option<usize>)
    requires
        call_ensures(pool_size, (channel_buffer, tunnels), size),
    ensures
        size is Some && tunnels >= 1 ==> size->0 == channel_buffer * tunnels + 384,
        size is Some && tunnels == 0 ==> size->0 == channel_buffer + 384,
        size is None ==> channel_buffer * (if tunnels == 0 {
            1
        } else {
            tunnels
        }) + 384 > usize::MAX,
{
}

/// The raw sockets are the helper's, unless the IPv4 one is there already, and the
/// IPv6 one only if the helper says that it is one.
pub proof fn law_raw_sockets<T>(
    have_v4: bool,
    v4_fd: Option<T>,
    v6: Option<HelperReply>,
    v6_fd: Option<T>,
    taken: (Option<T>, Option<T>),
)
    requires
        call_ensures(take_raw_sockets::<T>, (have_v4, v4_fd, &v6, v6_fd), taken),
    ensures
        have_v4 ==> taken.0 is None && taken.1 is None,
        !have_v4 ==> taken.0 == v4_fd,
        !have_v4 && v6 is Some && v6->0 is RawSocket && v6->0->address_family == 10 ==> taken.1
            == v6_fd,
        v6 is None || !(v6->0 is RawSocket) || v6->0->address_family != 10 ==> taken.1 is None,
{
}

/// A configured tunnel is registered under its ID and its peer if it is enabled, and
/// not at all if it is not.
pub proof fn law_configured(config: TunnelConfig, channel_buffer: usize)
    ensures
        forall|registry: &mut TunnelRegistry, key: Option<DemuxKey>| #[trigger]
            call_ensures(register_configured, (registry, &config, channel_buffer), key) ==> ({
                let (before, after) = ((*registry)@, (*final(registry))@);
                &&& !config.enabled ==> key is None && after == before
                &&& config.enabled ==> {
                    &&& key == Some(
                        DemuxKey { tunnel_id: config.tunnel_id, peer_addr: config.remote },
                    )
                    &&& after.dom().contains(key->0@)
                    &&& after[key->0@].config == config
                    &&& after[key->0@].state@ is Initializing
                    &&& forall|code: (u16, u8, u128)|
                        #[trigger] before.dom().contains(code) && code != key->0@
                            ==> after.dom().contains(code) && after[code] == before[code]
                }
            }),
{
}

/// What a configuration holds where it says nothing: a tunnel is enabled, has an MTU
/// that fits a path of 1500 bytes, and a keepalive timeout of ten intervals; the high
/// mark is 32 times the low one.
pub proof fn law_defaults(
    mtu: u16,
    enabled: bool,
    interval: u64,
    timeout: u64,
    low: usize,
    high: usize,
    largest: usize,
    batch_timeout_us: u64,
    channel: usize,
    workers: usize,
)
    requires
        call_ensures(default_mtu, (), mtu),
        call_ensures(default_enabled, (), enabled),
        call_ensures(default_keepalive_interval_secs, (), interval),
        call_ensures(default_keepalive_timeout_secs, (), timeout),
        call_ensures(default_low_water_mark, (), low),
        call_ensures(default_high_water_mark, (), high),
        call_ensures(default_max_batch_size, (), largest),
        call_ensures(default_batch_timeout_us, (), batch_timeout_us),
        call_ensures(default_channel_buffer, (), channel),
        call_ensures(default_rx_workers, (), workers),
    ensures
        mtu + 42 == 1500,
        enabled,
        interval == 10 && timeout == 10 * interval,
        low == 8 && high == 32 * low,
        largest == 64 && batch_timeout_us == 50,
        channel == 1024 && workers == 1,
{
}

/// The helper that a configuration says nothing of persists, so a configuration
/// without tunnels that leaves it out is valid.
pub proof fn law_default_helper_is_valid(
    config: Config,
    mode: String,
    result: Result<(), ConfigError>,
)
    requires
        call_ensures(default_helper_mode, (), mode),
        config.daemon.helper_mode@ == mode@,
        config.tunnels@.len() == 0,
        call_ensures(validate_config, (&config,), result),
    ensures
        mode@ == "persist"@,
        result is Ok,
{
    law_validate(config, result);
}

} // verus!
