//! Laws of the operations that packets go through: what is received, sent, checked
//! and discovered.

use crate::addr::law_four_octets;
use crate::addr::DemuxKey;
use crate::addr::IpAddr;
use crate::keepalive::check_keepalive;
use crate::keepalive::check_tunnel;
use crate::keepalive::law_check_reports_what_it_does;
use crate::keepalive::KeepaliveChange;
use crate::net::pmtud::finish_discovery;
use crate::packet::buffer::BufferPool;
use crate::packet::buffer::PacketBuf;
use crate::packet::rx::batch_steps;
use crate::packet::rx::law_batch_is_packet_after_packet;
use crate::packet::rx::law_link_header_is_skipped;
use crate::packet::rx::law_v4_packet_carries_its_frame;
use crate::packet::rx::law_v6_packet_carries_its_frame;
use crate::packet::rx::locate_v4;
use crate::packet::rx::process_af_packet;
use crate::packet::rx::process_batch;
use crate::packet::rx::process_v4_packet;
use crate::packet::rx::process_v6_packet;
use crate::packet::rx::receive_single;
use crate::packet::rx::v4_packet_received;
use crate::packet::rx::CoarseClock;
use crate::packet::rx::EoipHeader;
use crate::packet::rx::EtherIpHeader;
use crate::packet::rx::RxBatch;
use crate::packet::rx::RxOutcome;
use crate::packet::rx::V4Layout;
use crate::packet::tx::accept_frame;
use crate::packet::tx::accept_tunnel_frame;
use crate::packet::tx::law_header_tells_the_frame;
use crate::packet::tx::TxDecision;
use crate::packet::tx::TxHeader;
use crate::tunnel::handle::offered;
use crate::tunnel::handle::TunnelHandle;
use crate::tunnel::registry::TunnelRegistry;
use vstd::prelude::*;

verus! {

/// A packet that arrives over IPv4 for a registered tunnel is counted with its
/// frame's bytes, and its frame is offered to the TAP writer, unless the tunnel
/// header announces nothing or nothing follows it: then, and only then, it is a
/// keepalive.
pub proof fn law_v4_receive(
    buf: &[u8],
    n: usize,
    ip: Seq<u8>,
    header: Seq<u8>,
    frame: Seq<u8>,
    decoded: EoipHeader,
    reading: i64,
)
    requires
        n <= buf@.len(),
        buf@.subrange(0, n as int) == ip + (header + frame),
        ip.len() >= 20,
        ip.len() == (ip[0] as int % 16) * 4,
        header.len() == decoded.header_len,
        header.len() + frame.len() >= 8,
    ensures
        forall|
            registry: &mut TunnelRegistry,
            pool: &mut BufferPool,
            clock: &mut CoarseClock,
            outcome: RxOutcome,
        | #[trigger]
            call_ensures(
                process_v4_packet,
                (buf, n, Some(decoded), registry, pool, clock, reading),
                outcome,
            ) && pool.wf() ==> ({
                let sender = (ip[12] * 0x100_0000 + ip[13] * 0x1_0000 + ip[14] * 0x100
                    + ip[15]) as u32;
                let key = DemuxKey { tunnel_id: decoded.tunnel_id, peer_addr: IpAddr::V4(sender) };
                let (before, after) = ((*registry)@, (*final(registry))@);
                &&& outcome is Miss <==> !before.dom().contains(key@)
                &&& outcome is Miss ==> after == before
                &&& before.dom().contains(key@) ==> {
                    &&& outcome is Keepalive <==> decoded.payload_len == 0 || frame.len() == 0
                    &&& decoded.payload_len > 0 && frame.len() > 0 && before[key@].rx_channel is Some
                        ==> (outcome is Delivered || outcome is Dropped) && offered(after[key@])
                        == offered(before[key@]).push(
                        if frame.len() <= 1522 {
                            frame
                        } else {
                            frame.subrange(0, 1522)
                        },
                    )
                    &&& after[key@].stats.rx_packets == before[key@].stats.rx_packets.wrapping_add(
                        1,
                    )
                    &&& after[key@].stats.rx_bytes == before[key@].stats.rx_bytes.wrapping_add(
                        frame.len() as u64,
                    )
                    &&& after[key@].config == before[key@].config
                }
            }),
{
    assert forall|
        registry: &mut TunnelRegistry,
        pool: &mut BufferPool,
        clock: &mut CoarseClock,
        outcome: RxOutcome,
    | #[trigger]
        call_ensures(
            process_v4_packet,
            (buf, n, Some(decoded), registry, pool, clock, reading),
            outcome,
        ) && pool.wf() implies ({
        let sender = (ip[12] * 0x100_0000 + ip[13] * 0x1_0000 + ip[14] * 0x100 + ip[15]) as u32;
        let key = DemuxKey { tunnel_id: decoded.tunnel_id, peer_addr: IpAddr::V4(sender) };
        let (before, after) = ((*registry)@, (*final(registry))@);
        &&& outcome is Miss <==> !before.dom().contains(key@)
        &&& outcome is Miss ==> after == before
        &&& before.dom().contains(key@) ==> {
            &&& outcome is Keepalive <==> decoded.payload_len == 0 || frame.len() == 0
            &&& decoded.payload_len > 0 && frame.len() > 0 && before[key@].rx_channel is Some ==> (
            outcome is Delivered || outcome is Dropped) && offered(after[key@]) == offered(
                before[key@],
            ).push(
                if frame.len() <= 1522 {
                    frame
                } else {
                    frame.subrange(0, 1522)
                },
            )
            &&& after[key@].stats.rx_packets == before[key@].stats.rx_packets.wrapping_add(1)
            &&& after[key@].stats.rx_bytes == before[key@].stats.rx_bytes.wrapping_add(
                frame.len() as u64,
            )
            &&& after[key@].config == before[key@].config
        }
    }) by {
        (*pool).law_idle_buffers_blank();
        law_v4_packet_carries_its_frame(
            *registry,
            *final(registry),
            *pool,
            *final(pool),
            *clock,
            *final(clock),
            ip,
            header,
            frame,
            decoded,
            reading,
            outcome,
        );
    }
}

/// The header of a frame that is read from a tunnel's TAP device tells the tunnel's
/// ID and over IPv4 the frame's length; the frame is counted, and is what the
/// buffer then holds.
pub proof fn law_send(n: usize, now_ms: i64)
    requires
        n <= 1522,
    ensures
        forall|handle: &mut TunnelHandle, buf: &mut PacketBuf, header: TxHeader| #[trigger]
            call_ensures(accept_frame, (handle, buf, n, now_ms), header) ==> ({
                let (before, after) = (*handle, *final(handle));
                &&& before.config.remote is V4 ==> header is Eoip && header->Eoip_tunnel_id
                    == before.config.tunnel_id && header->payload_len == n
                &&& before.config.remote is V6 ==> header is EtherIp && header->EtherIp_tunnel_id
                    == before.config.tunnel_id
                &&& after.stats.tx_packets == before.stats.tx_packets.wrapping_add(1)
                &&& after.stats.tx_bytes == before.stats.tx_bytes.wrapping_add(n as u64)
                &&& after.stats.last_tx_timestamp == now_ms
                &&& after.config == before.config
                &&& (*final(buf))@ == (*buf).storage().subrange(64, 64 + n)
            }),
{
    assert forall|handle: &mut TunnelHandle, buf: &mut PacketBuf, header: TxHeader| #[trigger]
        call_ensures(accept_frame, (handle, buf, n, now_ms), header) implies ({
        let (before, after) = (*handle, *final(handle));
        &&& before.config.remote is V4 ==> header is Eoip && header->Eoip_tunnel_id
            == before.config.tunnel_id && header->payload_len == n
        &&& before.config.remote is V6 ==> header is EtherIp && header->EtherIp_tunnel_id
            == before.config.tunnel_id
        &&& after.stats.tx_packets == before.stats.tx_packets.wrapping_add(1)
        &&& after.stats.tx_bytes == before.stats.tx_bytes.wrapping_add(n as u64)
        &&& after.stats.last_tx_timestamp == now_ms
        &&& after.config == before.config
        &&& (*final(buf))@ == (*buf).storage().subrange(64, 64 + n)
    }) by {
        law_header_tells_the_frame((*handle).config, n as nat);
    }
}

/// A frame that is read from the TAP device of a registered tunnel is sent to the
/// tunnel's peer with the tunnel's header, unless the tunnel is stale: then it is
/// neither counted nor sent.
pub proof fn law_send_for_a_tunnel(key: &DemuxKey, n: usize, now_ms: i64)
    requires
        n <= 1522,
    ensures
        forall|registry: &mut TunnelRegistry, buf: &mut PacketBuf, decision: TxDecision| #[trigger]
            call_ensures(accept_tunnel_frame, (registry, key, buf, n, now_ms), decision) ==> ({
                let (before, after) = ((*registry)@, (*final(registry))@);
                &&& !before.dom().contains(key@) ==> decision is Gone && after == before
                &&& before.dom().contains(key@) && before[key@].state@ is Stale
                    ==> decision is Suspended && after == before
                &&& before.dom().contains(key@) && !(before[key@].state@ is Stale) ==> {
                    &&& decision is Send
                    &&& decision->remote == before[key@].config.remote
                    &&& decision->remote is V4 ==> decision->header == (TxHeader::Eoip {
                        tunnel_id: before[key@].config.tunnel_id,
                        payload_len: n as u16,
                    })
                    &&& decision->remote is V6 ==> decision->header == (TxHeader::EtherIp {
                        tunnel_id: before[key@].config.tunnel_id,
                    })
                    &&& after[key@].stats.tx_packets == before[key@].stats.tx_packets.wrapping_add(
                        1,
                    )
                    &&& after[key@].stats.tx_bytes == before[key@].stats.tx_bytes.wrapping_add(
                        n as u64,
                    )
                    &&& after.dom() == before.dom()
                    &&& forall|code: (u16, u8, u128)|
                        #[trigger] before.dom().contains(code) && code != key@ ==> after[code]
                            == before[code]
                }
            }),
{
    assert forall|registry: &mut TunnelRegistry, buf: &mut PacketBuf, decision: TxDecision|
        #[trigger] call_ensures(accept_tunnel_frame, (registry, key, buf, n, now_ms), decision)
            && (*registry)@.dom().contains(key@) && !((*registry)@[key@].state@ is Stale) implies (
    *final(registry))@.dom() == (*registry)@.dom() by {
        assert((*final(registry))@.dom() =~= (*registry)@.dom());
    }
}

/// A path MTU that is discovered for a registered tunnel is in force afterwards,
/// less the overhead of 42 bytes and no less than 534, whatever was in force
/// before, and is reported if that changed; without one, an MTU that is in force
/// stays. No other tunnel is touched.
pub proof fn law_discovery(key: &DemuxKey, found: Option<u16>, detected: Option<u16>)
    ensures
        forall|registry: &mut TunnelRegistry, changed: Option<u16>| #[trigger]
            call_ensures(finish_discovery, (registry, key, found, detected), changed) ==> ({
                let (before, after) = ((*registry)@, (*final(registry))@);
                let basis = if found is Some {
                    found
                } else {
                    detected
                };
                &&& !before.dom().contains(key@) ==> changed is None && after == before
                &&& before.dom().contains(key@) ==> {
                    let (old_mtu, new_mtu) = (before[key@].actual_mtu, after[key@].actual_mtu);
                    &&& found is None && old_mtu != 0 ==> new_mtu == old_mtu
                    &&& (found is Some || old_mtu == 0) && basis is Some && basis->0 >= 576
                        ==> new_mtu == basis->0 - 42
                    &&& (found is Some || old_mtu == 0) && basis is Some && basis->0 < 576
                        ==> new_mtu == 534
                    &&& found is None && old_mtu == 0 && detected is None ==> new_mtu == 1458
                    &&& changed == (if new_mtu == old_mtu {
                        None
                    } else {
                        Some(new_mtu)
                    })
                    &&& after[key@].config == before[key@].config
                    &&& after[key@].state == before[key@].state
                    &&& after[key@].stats == before[key@].stats
                    &&& forall|code: (u16, u8, u128)|
                        #[trigger] before.dom().contains(code) && code != key@ ==> after[code]
                            == before[code]
                }
            }),
{
}

/// A check makes an active tunnel stale exactly if it was heard of once, but not for
/// longer than its own timeout, and a stale one active exactly if it was heard of
/// within it, and reports which.
pub proof fn law_keepalive(now_ms: i64)
    ensures
        forall|handle: &mut TunnelHandle, change: KeepaliveChange| #[trigger]
            call_ensures(check_keepalive, (handle, now_ms), change) ==> ({
                let (before, after) = (*handle, *final(handle));
                let heard = before.stats.last_rx_timestamp;
                let silent = now_ms - heard > before.config.keepalive_timeout_secs * 1000;
                &&& after.config == before.config
                &&& after.stats == before.stats
                &&& before.state@ is Active && heard > 0 && silent ==> after.state@ is Stale
                    && change == KeepaliveChange::WentStale {
                    elapsed_secs: ((now_ms - heard) / 1000) as u64,
                }
                &&& before.state@ is Stale && heard > 0 && !silent ==> after.state@ is Active
                    && change is Recovered
                &&& !(before.state@ is Active && heard > 0 && silent) && !(before.state@ is Stale
                    && heard > 0 && !silent) ==> after.state@ == before.state@
                    && change is Unchanged
            }),
{
    assert forall|handle: &mut TunnelHandle, change: KeepaliveChange| #[trigger]
        call_ensures(check_keepalive, (handle, now_ms), change) implies ({
        let (before, after) = (*handle, *final(handle));
        let heard = before.stats.last_rx_timestamp;
        let silent = now_ms - heard > before.config.keepalive_timeout_secs * 1000;
        &&& after.config == before.config
        &&& after.stats == before.stats
        &&& before.state@ is Active && heard > 0 && silent ==> after.state@ is Stale && change
            == KeepaliveChange::WentStale { elapsed_secs: ((now_ms - heard) / 1000) as u64 }
        &&& before.state@ is Stale && heard > 0 && !silent ==> after.state@ is Active
            && change is Recovered
        &&& !(before.state@ is Active && heard > 0 && silent) && !(before.state@ is Stale && heard
            > 0 && !silent) ==> after.state@ == before.state@ && change is Unchanged
    }) by {
        law_check_reports_what_it_does(*handle, *final(handle), now_ms, change);
    }
}

/// The check of a registered tunnel touches that tunnel's state alone.
pub proof fn law_keepalive_of_a_tunnel(key: &DemuxKey, now_ms: i64)
    ensures
        forall|registry: &mut TunnelRegistry, change: Option<KeepaliveChange>| #[trigger]
            call_ensures(check_tunnel, (registry, key, now_ms), change) ==> ({
                let (before, after) = ((*registry)@, (*final(registry))@);
                &&& change is None <==> !before.dom().contains(key@)
                &&& change is None ==> after == before
                &&& change is Some ==> {
                    let heard = before[key@].stats.last_rx_timestamp;
                    let silent = now_ms - heard > before[key@].config.keepalive_timeout_secs * 1000;
                    &&& after[key@].stats == before[key@].stats
                    &&& after[key@].config == before[key@].config
                    &&& before[key@].state@ is Active && heard > 0 && silent
                        ==> after[key@].state@ is Stale
                    &&& before[key@].state@ is Active && !(heard > 0 && silent)
                        ==> after[key@].state@ is Active
                    &&& before[key@].state@ is Stale && heard > 0 && !silent
                        ==> after[key@].state@ is Active
                    &&& forall|code: (u16, u8, u128)|
                        #[trigger] before.dom().contains(code) && code != key@ ==> after[code]
                            == before[code]
                }
            }),
{
}

/// An EoIPv6 payload that arrives for a registered tunnel is counted with its
/// frame's bytes, and its frame is offered to the TAP writer; only an empty one is a
/// keepalive.
pub proof fn law_v6_receive(
    buf: &[u8],
    n: usize,
    source: IpAddr,
    header: Seq<u8>,
    frame: Seq<u8>,
    decoded: EtherIpHeader,
    reading: i64,
)
    requires
        n <= buf@.len(),
        buf@.subrange(0, n as int) == header + frame,
        header.len() == decoded.header_len,
        header.len() + frame.len() >= 2,
    ensures
        forall|
            registry: &mut TunnelRegistry,
            pool: &mut BufferPool,
            clock: &mut CoarseClock,
            outcome: RxOutcome,
        | #[trigger]
            call_ensures(
                process_v6_packet,
                (buf, n, source, Some(decoded), registry, pool, clock, reading),
                outcome,
            ) && pool.wf() ==> ({
                let key = DemuxKey { tunnel_id: decoded.tunnel_id, peer_addr: source };
                let (before, after) = ((*registry)@, (*final(registry))@);
                &&& outcome is Miss <==> !before.dom().contains(key@)
                &&& outcome is Miss ==> after == before
                &&& before.dom().contains(key@) ==> {
                    &&& outcome is Keepalive <==> frame.len() == 0
                    &&& frame.len() > 0 && before[key@].rx_channel is Some ==> (
                    outcome is Delivered || outcome is Dropped) && offered(after[key@]) == offered(
                        before[key@],
                    ).push(
                        if frame.len() <= 1522 {
                            frame
                        } else {
                            frame.subrange(0, 1522)
                        },
                    )
                    &&& after[key@].stats.rx_packets == before[key@].stats.rx_packets.wrapping_add(
                        1,
                    )
                    &&& after[key@].stats.rx_bytes == before[key@].stats.rx_bytes.wrapping_add(
                        frame.len() as u64,
                    )
                    &&& after[key@].config == before[key@].config
                }
            }),
{
    assert forall|
        registry: &mut TunnelRegistry,
        pool: &mut BufferPool,
        clock: &mut CoarseClock,
        outcome: RxOutcome,
    | #[trigger]
        call_ensures(
            process_v6_packet,
            (buf, n, source, Some(decoded), registry, pool, clock, reading),
            outcome,
        ) && pool.wf() implies ({
        let key = DemuxKey { tunnel_id: decoded.tunnel_id, peer_addr: source };
        let (before, after) = ((*registry)@, (*final(registry))@);
        &&& outcome is Miss <==> !before.dom().contains(key@)
        &&& outcome is Miss ==> after == before
        &&& before.dom().contains(key@) ==> {
            &&& outcome is Keepalive <==> frame.len() == 0
            &&& frame.len() > 0 && before[key@].rx_channel is Some ==> (outcome is Delivered
                || outcome is Dropped) && offered(after[key@]) == offered(before[key@]).push(
                if frame.len() <= 1522 {
                    frame
                } else {
                    frame.subrange(0, 1522)
                },
            )
            &&& after[key@].stats.rx_packets == before[key@].stats.rx_packets.wrapping_add(1)
            &&& after[key@].stats.rx_bytes == before[key@].stats.rx_bytes.wrapping_add(
                frame.len() as u64,
            )
            &&& after[key@].config == before[key@].config
        }
    }) by {
        (*pool).law_idle_buffers_blank();
        law_v6_packet_carries_its_frame(
            *registry,
            *final(registry),
            *pool,
            *final(pool),
            *clock,
            *final(clock),
            source,
            header,
            frame,
            Some(decoded),
            reading,
            outcome,
        );
    }
}

/// A packet with an Ethernet header of fourteen bytes in front is received as the
/// packet behind it is.
pub proof fn law_framed_receive(
    buf: &[u8],
    n: usize,
    link: Seq<u8>,
    packet: Seq<u8>,
    decoded: Option<EoipHeader>,
    reading: i64,
)
    requires
        n <= buf@.len(),
        buf@.subrange(0, n as int) == link + packet,
        link.len() == 14,
        packet.len() > 0,
    ensures
        forall|
            registry: &mut TunnelRegistry,
            pool: &mut BufferPool,
            clock: &mut CoarseClock,
            outcome: RxOutcome,
        | #[trigger]
            call_ensures(
                process_af_packet,
                (buf, n, decoded, registry, pool, clock, reading),
                outcome,
            ) ==> v4_packet_received(
                *registry,
                *final(registry),
                *pool,
                *final(pool),
                *clock,
                *final(clock),
                packet,
                decoded,
                reading,
                outcome,
            ),
{
    assert forall|
        registry: &mut TunnelRegistry,
        pool: &mut BufferPool,
        clock: &mut CoarseClock,
        outcome: RxOutcome,
    | #[trigger]
        call_ensures(
            process_af_packet,
            (buf, n, decoded, registry, pool, clock, reading),
            outcome,
        ) implies v4_packet_received(
        *registry,
        *final(registry),
        *pool,
        *final(pool),
        *clock,
        *final(clock),
        packet,
        decoded,
        reading,
        outcome,
    ) by {
        law_link_header_is_skipped(
            *registry,
            *final(registry),
            *pool,
            *final(pool),
            *clock,
            *final(clock),
            link,
            packet,
            decoded,
            reading,
            outcome,
        );
    }
}

/// A batch of `count` packets has as many outcomes, and is processed one packet
/// after the other: each is received in the state that the one before it left.
pub proof fn law_batch_receive(batch: &RxBatch, count: usize, reading: i64)
    requires
        !batch.framed,
    ensures
        forall|
            registry: &mut TunnelRegistry,
            pool: &mut BufferPool,
            clock: &mut CoarseClock,
            outcomes: Vec<RxOutcome>,
        | #[trigger]
            call_ensures(process_batch, (batch, count, registry, pool, clock, reading), outcomes)
                ==> outcomes@.len() == count && exists|
                states: Seq<(TunnelRegistry, BufferPool, CoarseClock)>,
            |
                {
                    &&& #[trigger] states.len() == count + 1
                    &&& states[0] == (*registry, *pool, *clock)
                    &&& states[count as int] == (*final(registry), *final(pool), *final(clock))
                    &&& forall|i: int|
                        0 <= i < count ==> v4_packet_received(
                            states[i].0,
                            states[i + 1].0,
                            states[i].1,
                            states[i + 1].1,
                            states[i].2,
                            states[i + 1].2,
                            batch.bufs@[i]@.subrange(0, batch.lens@[i] as int),
                            batch.decoded@[i],
                            reading,
                            #[trigger] outcomes@[i],
                        )
                },
{
    assert forall|
        registry: &mut TunnelRegistry,
        pool: &mut BufferPool,
        clock: &mut CoarseClock,
        outcomes: Vec<RxOutcome>,
    | #[trigger]
        call_ensures(process_batch, (batch, count, registry, pool, clock, reading), outcomes) implies
        outcomes@.len() == count && exists|
        states: Seq<(TunnelRegistry, BufferPool, CoarseClock)>,
    |
        {
            &&& #[trigger] states.len() == count + 1
            &&& states[0] == (*registry, *pool, *clock)
            &&& states[count as int] == (*final(registry), *final(pool), *final(clock))
            &&& forall|i: int|
                0 <= i < count ==> v4_packet_received(
                    states[i].0,
                    states[i + 1].0,
                    states[i].1,
                    states[i + 1].1,
                    states[i].2,
                    states[i + 1].2,
                    batch.bufs@[i]@.subrange(0, batch.lens@[i] as int),
                    batch.decoded@[i],
                    reading,
                    #[trigger] outcomes@[i],
                )
        } by {
        let states = choose|states: Seq<(TunnelRegistry, BufferPool, CoarseClock)>| #[trigger]
            batch_steps(*batch, states, reading, outcomes@) && states[0] == (
                *registry,
                *pool,
                *clock,
            ) && states[count as int] == (*final(registry), *final(pool), *final(clock));
        assert forall|i: int| 0 <= i < count implies v4_packet_received(
            states[i].0,
            states[i + 1].0,
            states[i].1,
            states[i + 1].1,
            states[i].2,
            states[i + 1].2,
            batch.bufs@[i]@.subrange(0, batch.lens@[i] as int),
            batch.decoded@[i],
            reading,
            #[trigger] outcomes@[i],
        ) by {
            law_batch_is_packet_after_packet(*batch, states, reading, outcomes@, i);
        }
        assert(states.len() == count + 1);
    }
}

/// The tunnel header of an IPv4 packet stands behind the IP header, whose length its
/// first byte gives in words, if eight bytes follow it; the sender is in bytes 12 to 15.
pub proof fn law_locate(buf: &[u8], n: usize, layout: Option<V4Layout>)
    requires
        n <= buf@.len(),
        call_ensures(locate_v4, (buf, n), layout),
    ensures
        layout is Some <==> n >= 20 && n >= (buf@[0] as int % 16) * 4 + 8,
        layout matches Some(l) ==> {
            &&& l.offset == (buf@[0] as int % 16) * 4
            &&& l.source is V4
            &&& l.source->V4_0 == buf@[12] * 0x100_0000 + buf@[13] * 0x1_0000 + buf@[14] * 0x100
                + buf@[15]
        },
{
    if let Some(l) = layout {
        law_four_octets(buf@[12], buf@[13], buf@[14], buf@[15]);
        assert(buf@.subrange(12, 16) =~= seq![buf@[12], buf@[13], buf@[14], buf@[15]]);
    }
}

/// A host with a single tunnel takes the frames of its own tunnel alone, where the
/// decoded header says that they are, and counts them with their bytes; a packet
/// without a frame is a keepalive, and is counted too.
pub proof fn law_single_receive(buf: &[u8], n: usize, decoded: Option<EoipHeader>, now_ms: i64)
    requires
        n <= buf@.len(),
    ensures
        forall|handle: &mut TunnelHandle, frame: Option<(usize, usize)>| #[trigger]
            call_ensures(receive_single, (buf, n, decoded, handle, now_ms), frame) ==> ({
                let (before, after) = (*handle, *final(handle));
                let header_len = (buf@[0] as int % 16) * 4;
                let own = n >= 20 && n >= header_len + 8 && buf@[9] == 47 && decoded is Some
                    && decoded->0.tunnel_id == before.config.tunnel_id;
                &&& !own ==> frame is None && after == before
                &&& own ==> {
                    let (start, len) = (header_len + decoded->0.header_len, decoded->0.payload_len);
                    &&& len == 0 ==> frame is None
                    &&& len > 0 ==> frame == Some((start as usize, (start + len) as usize))
                    &&& after.stats.rx_packets == before.stats.rx_packets.wrapping_add(1)
                    &&& after.stats.rx_bytes == before.stats.rx_bytes.wrapping_add(len as u64)
                    &&& after.stats.last_rx_timestamp == now_ms
                    &&& after.config == before.config && after.state == before.state
                }
            }),
{
}

} // verus!
